//! Relaunching with administrator rights: how the command line is quoted.
use vstd::prelude::*;

use crate::text::{chars_of, push_char};

verus! {

/// Whether the program may go on: it runs as administrator, it started an
/// elevated copy of itself, or it could not.
#[derive(Clone, Copy, Debug, PartialEq, Eq, Structural)]
pub enum ElevationStatus {
    Ready,
    Relaunched,
    Failed,
}

/// `s` with every `"` written as `\"`.
pub open spec fn escape_quotes(s: Seq<char>) -> Seq<char>
    decreases s.len(),
{
    if s.len() == 0 {
        Seq::empty()
    } else {
        escape_quotes(s.drop_last()) + if s.last() == '"' {
            seq!['\\', '"']
        } else {
            seq![s.last()]
        }
    }
}

/// A command-line argument as passed on: in quotes, with its quotes escaped,
/// when it holds a space or a quote; unchanged otherwise.
pub open spec fn quoted_arg(s: Seq<char>) -> Seq<char> {
    if s.contains(' ') || s.contains('"') {
        seq!['"'] + escape_quotes(s) + seq!['"']
    } else {
        s
    }
}

pub fn quote_arg(arg: &str) -> (r: String)
    ensures
        r@ == quoted_arg(arg@),
{
    let v = chars_of(arg);
    let mut needs = false;
    let mut i: usize = 0;
    while i < v.len()
        invariant
            v@ == arg@,
            i <= v.len(),
            needs == exists|j: int| 0 <= j < i && (v@[j] == ' ' || v@[j] == '"'),
        decreases v.len() - i,
    {
        if v[i] == ' ' || v[i] == '"' {
            needs = true;
        }
        i = i + 1;
    }
    assert(needs == (arg@.contains(' ') || arg@.contains('"')));
    if !needs {
        return String::from_str(arg);
    }
    let mut r = String::new();
    push_char(&mut r, '"');
    let mut k: usize = 0;
    assert(v@.take(0) =~= Seq::<char>::empty());
    while k < v.len()
        invariant
            v@ == arg@,
            k <= v.len(),
            r@ == seq!['"'] + escape_quotes(v@.take(k as int)),
        decreases v.len() - k,
    {
        let c = v[k];
        assert(v@.take(k + 1).drop_last() =~= v@.take(k as int));
        assert(v@.take(k + 1).last() == c);
        if c == '"' {
            push_char(&mut r, '\\');
            push_char(&mut r, '"');
        } else {
            push_char(&mut r, c);
        }
        k = k + 1;
        assert(r@ =~= seq!['"'] + escape_quotes(v@.take(k as int)));
    }
    assert(v@.take(v.len() as int) =~= v@);
    push_char(&mut r, '"');
    r
}

} // verus!
