//! Doing one thing after another, up to the first that fails.

use vstd::prelude::*;

verus! {

/// Where an agenda stands: what is left, whether something was handed out whose
/// outcome is not known yet, how many things were done, and whether one failed.
pub struct AgendaView<T> {
    pub left: Seq<T>,
    pub waiting: bool,
    pub done: nat,
    pub failed: bool,
}

impl<T> AgendaView<T> {
    /// Whether there is something to hand out.
    pub open spec fn ready(self) -> bool {
        !self.waiting && self.left.len() > 0
    }

    /// After the next thing was handed out.
    pub open spec fn handed_out(self) -> Self {
        AgendaView { left: self.left.skip(1), waiting: true, ..self }
    }

    /// After the outcome of what was handed out came in: a failure strikes what
    /// is left.
    pub open spec fn reported(self, went_well: bool) -> Self {
        if !self.waiting {
            self
        } else if went_well {
            AgendaView { waiting: false, done: self.done + 1, ..self }
        } else {
            AgendaView { left: Seq::empty(), waiting: false, failed: true, ..self }
        }
    }
}

/// The agenda goes through `all` in order: what was done are the first things of
/// it, then comes what was handed out, then what is left.
pub open spec fn on_course<T>(a: AgendaView<T>, all: Seq<T>) -> bool {
    let out: int = if a.waiting {
        1
    } else {
        0
    };
    &&& a.done + out <= all.len()
    &&& a.failed ==> !a.waiting && a.left.len() == 0 && a.done < all.len()
    &&& !a.failed ==> a.left == all.skip(a.done + out)
}

/// Things to do in order, each only once the one before it has gone well.
pub struct Agenda<T> {
    left: Vec<T>,
    waiting: bool,
    done: usize,
    failed: bool,
}

impl<T> View for Agenda<T> {
    type V = AgendaView<T>;

    closed spec fn view(&self) -> AgendaView<T> {
        AgendaView {
            left: self.left@,
            waiting: self.waiting,
            done: self.done as nat,
            failed: self.failed,
        }
    }
}

impl<T> Agenda<T> {
    #[verifier::type_invariant]
    spec fn counts(self) -> bool {
        self.left@.len() + (if self.waiting {
            1int
        } else {
            0
        }) + self.done <= usize::MAX
    }

    /// All of these, in this order.
    pub fn new(things: Vec<T>) -> (r: Self)
        ensures
            r@ == (AgendaView { left: things@, waiting: false, done: 0, failed: false }),
    {
        let n: usize = things.len();
        assert(n == things@.len());
        Agenda { left: things, waiting: false, done: 0, failed: false }
    }

    /// The next thing to do; nothing while an outcome is missing, after a
    /// failure, or at the end.
    pub fn next(&mut self) -> (r: Option<T>)
        ensures
            match r {
                Some(t) => old(self)@.ready() && t == old(self)@.left[0] && final(self)@ == old(
                    self,
                )@.handed_out(),
                None => !old(self)@.ready() && final(self)@ == old(self)@,
            },
    {
        if self.waiting || self.left.len() == 0 {
            return None;
        }
        proof {
            use_type_invariant(&*self);
        }
        let mut left: Vec<T> = Vec::new();
        std::mem::swap(&mut left, &mut self.left);
        let t = left.remove(0);
        assert(left@ =~= old(self)@.left.skip(1));
        *self = Agenda { left, waiting: true, done: self.done, failed: self.failed };
        Some(t)
    }

    /// Takes in how the thing handed out last has gone.
    pub fn report(&mut self, went_well: bool)
        ensures
            final(self)@ == old(self)@.reported(went_well),
    {
        if !self.waiting {
            return ;
        }
        proof {
            use_type_invariant(&*self);
        }
        if went_well {
            let mut left: Vec<T> = Vec::new();
            std::mem::swap(&mut left, &mut self.left);
            *self = Agenda { left, waiting: false, done: self.done + 1, failed: self.failed };
        } else {
            *self = Agenda { left: Vec::new(), waiting: false, done: self.done, failed: true };
        }
    }

    /// How many things were done.
    pub fn done(&self) -> (r: usize)
        ensures
            r == self@.done,
    {
        self.done
    }

    /// Whether everything handed out so far has gone well.
    pub fn went_well(&self) -> (r: bool)
        ensures
            r == !self@.failed,
    {
        !self.failed
    }
}

/// After a failure nothing more is handed out, whatever else is reported, and
/// the agenda stays failed.
pub proof fn a_failure_ends_an_agenda<T>(a: AgendaView<T>, later: bool)
    requires
        a.waiting,
    ensures
        ({
            let after = a.reported(false);
            &&& after.failed
            &&& !after.ready()
            &&& after.done == a.done
            &&& after.reported(later) == after
        }),
{
}

/// An agenda hands out its things in order, and counts as done those that went
/// well before the first that failed. It has gone through all of them exactly if
/// nothing failed by the time it has nothing more to hand out.
pub proof fn an_agenda_goes_in_order<T>(a: AgendaView<T>, all: Seq<T>, went_well: bool)
    requires
        on_course(a, all),
    ensures
        a.ready() ==> a.left[0] == all[a.done as int] && on_course(a.handed_out(), all),
        on_course(a.reported(went_well), all),
        !a.waiting && !a.ready() ==> (a.done == all.len() <==> !a.failed),
{
    if a.ready() {
        assert(all.skip(a.done as int).skip(1) =~= all.skip(a.done as int + 1));
    }
}

/// Only once a thing has gone well can the one after it be handed out.
pub proof fn an_agenda_waits_for_each_outcome<T>(a: AgendaView<T>)
    requires
        a.ready(),
    ensures
        ({
            let out = a.handed_out();
            &&& !out.ready()
            &&& !out.reported(false).ready()
            &&& out.reported(true).ready() == (a.left.len() > 1)
            &&& a.left.len() > 1 ==> out.reported(true).left[0] == a.left[1]
            &&& out.reported(true).done == a.done + 1
        }),
{
}

/// Handing a thing out takes it from what is left; its outcome counts it as done
/// or strikes what is left. An outcome that nothing was handed out for changes
/// nothing.
pub proof fn an_outcome_is_taken_in_once<T>(a: AgendaView<T>, went_well: bool)
    ensures
        a.ready() <==> !a.waiting && a.left.len() > 0,
        ({
            let out = a.handed_out();
            &&& out.waiting && out.done == a.done && out.failed == a.failed
            &&& a.left.len() > 0 ==> out.left.len() == a.left.len() - 1
            &&& forall|i: int| 0 <= i < a.left.len() - 1 ==> #[trigger] out.left[i] == a.left[i + 1]
        }),
        ({
            let after = a.reported(went_well);
            if !a.waiting {
                after == a
            } else if went_well {
                &&& !after.waiting && after.done == a.done + 1 && after.failed == a.failed
                &&& after.left == a.left
            } else {
                !after.waiting && after.done == a.done && after.failed && after.left.len() == 0
            }
        }),
{
}

} // verus!
