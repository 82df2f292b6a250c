//! Statements and the values bound to them.

use crate::ids;
use crate::ids::{uuid_text, Uuid};
use crate::text;
use crate::text::copy_opt;
use vstd::prelude::*;

verus! {

/// A value bound to a statement.
pub enum Param {
    Text(String),
    OptText(Option<String>),
    Int(i32),
    Long(i64),
}

/// A bound value, with its text as characters.
pub enum ParamView {
    Text(Seq<char>),
    OptText(Option<Seq<char>>),
    Int(i32),
    Long(i64),
}

impl View for Param {
    type V = ParamView;

    open spec fn view(&self) -> ParamView {
        match *self {
            Param::Text(s) => ParamView::Text(s@),
            Param::OptText(s) => ParamView::OptText(text::opt_text(s)),
            Param::Int(n) => ParamView::Int(n),
            Param::Long(n) => ParamView::Long(n),
        }
    }
}

/// A list of bound values.
pub open spec fn params_view(params: Seq<Param>) -> Seq<ParamView> {
    params.map_values(|p: Param| p@)
}

/// A statement and the values bound to it, the first one to `$1`.
pub struct Query {
    pub sql: &'static str,
    pub params: Vec<Param>,
}

/// A statement and its values, as characters.
pub struct QueryView {
    pub sql: Seq<char>,
    pub params: Seq<ParamView>,
}

impl View for Query {
    type V = QueryView;

    open spec fn view(&self) -> QueryView {
        QueryView { sql: self.sql@, params: params_view(self.params@) }
    }
}

/// An identifier as a bound value: its hyphenated text.
pub open spec fn id_value(id: Uuid) -> ParamView {
    ParamView::Text(ids::hyphenated(id))
}

/// An identifier that may be missing, as a bound value.
pub open spec fn opt_id_value(id: Option<Uuid>) -> ParamView {
    ParamView::OptText(
        match id {
            Some(id) => Some(ids::hyphenated(id)),
            None => None,
        },
    )
}

/// A truth value as a bound value: 1 or 0.
pub open spec fn flag_value(flag: bool) -> ParamView {
    ParamView::Int(
        if flag {
            1
        } else {
            0
        },
    )
}

pub(crate) fn id_param(id: Uuid) -> (r: Param)
    ensures
        r@ == id_value(id),
{
    Param::Text(uuid_text(id))
}

pub(crate) fn opt_id_param(id: Option<Uuid>) -> (r: Param)
    ensures
        r@ == opt_id_value(id),
{
    match id {
        Some(id) => Param::OptText(Some(uuid_text(id))),
        None => Param::OptText(None),
    }
}

pub(crate) fn text_param(s: &str) -> (r: Param)
    ensures
        r@ == ParamView::Text(s@),
{
    Param::Text(s.to_owned())
}

pub(crate) fn opt_text_param(s: &Option<String>) -> (r: Param)
    ensures
        r@ == ParamView::OptText(text::opt_text(*s)),
{
    Param::OptText(copy_opt(s))
}

pub(crate) fn flag_param(flag: bool) -> (r: Param)
    ensures
        r@ == flag_value(flag),
{
    Param::Int(
        if flag {
            1
        } else {
            0
        },
    )
}

/// A statement without values.
pub(crate) fn bare(sql: &'static str) -> (r: Query)
    ensures
        r@ == (QueryView { sql: sql@, params: seq![] }),
{
    let r = Query { sql, params: Vec::new() };
    assert(r@.params =~= seq![]);
    r
}

/// A statement with one value.
pub(crate) fn with_one(sql: &'static str, a: Param) -> (r: Query)
    ensures
        r@ == (QueryView { sql: sql@, params: seq![a@] }),
{
    let r = Query { sql, params: vec![a] };
    assert(r@.params =~= seq![a@]);
    r
}

/// A statement with two values.
pub(crate) fn with_two(sql: &'static str, a: Param, b: Param) -> (r: Query)
    ensures
        r@ == (QueryView { sql: sql@, params: seq![a@, b@] }),
{
    let r = Query { sql, params: vec![a, b] };
    assert(r@.params =~= seq![a@, b@]);
    r
}

/// A statement with three values.
pub(crate) fn with_three(sql: &'static str, a: Param, b: Param, c: Param) -> (r: Query)
    ensures
        r@ == (QueryView { sql: sql@, params: seq![a@, b@, c@] }),
{
    let r = Query { sql, params: vec![a, b, c] };
    assert(r@.params =~= seq![a@, b@, c@]);
    r
}

} // verus!
