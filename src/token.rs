use vstd::prelude::*;
use vstd::string::*;

verus! {

/// The bracket of a group of tokens.
#[derive(Clone, Copy, Debug, PartialEq, Eq)]
pub enum Delim {
    Paren,
    Brace,
    Bracket,
    /// A group without visible brackets.
    Invisible,
}

/// One token of an attribute's arguments, with groups laid out flat: a group is
/// its `Open`, its contents, then its `Close`.
#[derive(Clone, Debug)]
pub enum Tok {
    Ident(String),
    Punct(char),
    /// A string literal, holding its value.
    Str(String),
    /// Any other literal, as written.
    Lit(String),
    Open(Delim),
    Close(Delim),
}

/// A run of tokens, from `start` up to but not including `end`.
#[derive(Clone, Copy, Debug, PartialEq, Eq)]
pub struct TokRange {
    pub start: usize,
    pub end: usize,
}

/// Whether `t` is the punctuation character `c`.
pub open spec fn is_punct(t: Tok, c: char) -> bool {
    match t {
        Tok::Punct(p) => p == c,
        _ => false,
    }
}

/// Whether `t` is the identifier `w`.
pub open spec fn is_ident(t: Tok, w: Seq<char>) -> bool {
    match t {
        Tok::Ident(s) => s@ == w,
        _ => false,
    }
}

/// The nesting depth after `t`, from depth `d`.
pub open spec fn depth_after(d: nat, t: Tok) -> nat {
    match t {
        Tok::Open(_) => d + 1,
        Tok::Close(_) => if d > 0 {
            (d - 1) as nat
        } else {
            0
        },
        _ => d,
    }
}

/// From position `k` at nesting depth `d`: the first comma outside any group,
/// or the end of `ts`.
pub open spec fn scan_end(ts: Seq<Tok>, k: int, d: nat) -> int
    decreases ts.len() - k,
{
    if k >= ts.len() {
        ts.len() as int
    } else if d == 0 && is_punct(ts[k], ',') {
        k
    } else {
        scan_end(ts, k + 1, depth_after(d, ts[k]))
    }
}

/// Where the comma-separated entry that starts at `i` ends.
pub open spec fn entry_end(ts: Seq<Tok>, i: int) -> int {
    scan_end(ts, i, 0)
}

/// Whether `s` is the text `w`.
pub fn same_text(s: &String, w: &str) -> (r: bool)
    ensures
        r == (s@ == w@),
{
    s.eq(&String::from_str(w))
}

/// Whether `t` is the punctuation character `c`.
pub fn punct_is(t: &Tok, c: char) -> (r: bool)
    ensures
        r == is_punct(*t, c),
{
    match t {
        Tok::Punct(p) => *p == c,
        _ => false,
    }
}

/// Whether `t` is the identifier `w`.
pub fn ident_is(t: &Tok, w: &str) -> (r: bool)
    ensures
        r == is_ident(*t, w@),
{
    match t {
        Tok::Ident(s) => same_text(s, w),
        _ => false,
    }
}

/// The end of the comma-separated entry that starts at `i`: the first comma at
/// `i` or after that stands outside every group, or the length of `ts`.
pub fn find_entry_end(ts: &Vec<Tok>, i: usize) -> (e: usize)
    requires
        i <= ts@.len(),
    ensures
        e == entry_end(ts@, i as int),
        i <= e <= ts@.len(),
{
    let mut k: usize = i;
    let mut d: usize = 0;
    while k < ts.len()
        invariant
            i <= k <= ts@.len(),
            d <= k - i,
            scan_end(ts@, k as int, d as nat) == entry_end(ts@, i as int),
        decreases ts@.len() - k,
    {
        if d == 0 && punct_is(&ts[k], ',') {
            return k;
        }
        match &ts[k] {
            Tok::Open(_) => {
                d = d + 1;
            },
            Tok::Close(_) => {
                if d > 0 {
                    d = d - 1;
                }
            },
            _ => {},
        }
        k = k + 1;
    }
    k
}

} // verus!
