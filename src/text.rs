use vstd::prelude::*;
use vstd::string::*;

verus! {

/// Unicode `White_Space`: the characters that `str::trim` removes.
pub open spec fn white_space(c: char) -> bool {
    let u = c as u32;
    (0x9 <= u && u <= 0xD) || u == 0x20 || u == 0x85 || u == 0xA0 || u == 0x1680 || (0x2000 <= u
        && u <= 0x200A) || u == 0x2028 || u == 0x2029 || u == 0x202F || u == 0x205F || u == 0x3000
}

/// `s` without its leading white space.
pub open spec fn trim_start(s: Seq<char>) -> Seq<char>
    decreases s.len(),
{
    if s.len() > 0 && white_space(s[0]) {
        trim_start(s.drop_first())
    } else {
        s
    }
}

/// `s` without its trailing white space.
pub open spec fn trim_end(s: Seq<char>) -> Seq<char>
    decreases s.len(),
{
    if s.len() > 0 && white_space(s.last()) {
        trim_end(s.drop_last())
    } else {
        s
    }
}

/// `s` without white space at either end.
pub open spec fn trimmed(s: Seq<char>) -> Seq<char> {
    trim_end(trim_start(s))
}

/// Whether `c` is white space.
pub fn is_white_space(c: char) -> (r: bool)
    ensures
        r == white_space(c),
{
    let u = c as u32;
    (0x9 <= u && u <= 0xD) || u == 0x20 || u == 0x85 || u == 0xA0 || u == 0x1680 || (0x2000 <= u
        && u <= 0x200A) || u == 0x2028 || u == 0x2029 || u == 0x202F || u == 0x205F || u == 0x3000
}

proof fn lemma_trim_start_at(s: Seq<char>, i: int)
    requires
        0 <= i <= s.len(),
        forall|k: int| 0 <= k < i ==> white_space(#[trigger] s[k]),
        i == s.len() || !white_space(s[i]),
    ensures
        trim_start(s) == s.subrange(i, s.len() as int),
    decreases i,
{
    if i == 0 {
        assert(s.subrange(0, s.len() as int) =~= s);
    } else {
        let t = s.drop_first();
        assert forall|k: int| 0 <= k < i - 1 implies white_space(#[trigger] t[k]) by {
            assert(t[k] == s[k + 1]);
        }
        lemma_trim_start_at(t, i - 1);
        assert(t.subrange(i - 1, t.len() as int) =~= s.subrange(i, s.len() as int));
    }
}

proof fn lemma_trim_end_at(s: Seq<char>, j: int)
    requires
        0 <= j <= s.len(),
        forall|k: int| j <= k < s.len() ==> white_space(#[trigger] s[k]),
        j == 0 || !white_space(s[j - 1]),
    ensures
        trim_end(s) == s.subrange(0, j),
    decreases s.len() - j,
{
    if j == s.len() {
        assert(s.subrange(0, j) =~= s);
    } else {
        let t = s.drop_last();
        assert forall|k: int| j <= k < t.len() implies white_space(#[trigger] t[k]) by {
            assert(t[k] == s[k]);
        }
        lemma_trim_end_at(t, j);
        assert(t.subrange(0, j) =~= s.subrange(0, j));
    }
}

/// Removes white space at both ends of `s`.
pub fn trim(s: &str) -> (r: String)
    ensures
        r@ == trimmed(s@),
{
    let n = s.unicode_len();
    let mut i: usize = 0;
    while i < n && is_white_space(s.get_char(i))
        invariant
            n == s@.len(),
            i <= n,
            forall|k: int| 0 <= k < i ==> white_space(#[trigger] s@[k]),
        decreases n - i,
    {
        i = i + 1;
    }
    let mut j: usize = n;
    while j > i && is_white_space(s.get_char(j - 1))
        invariant
            n == s@.len(),
            i <= j <= n,
            forall|k: int| j <= k < n ==> white_space(#[trigger] s@[k]),
        decreases j,
    {
        j = j - 1;
    }
    proof {
        lemma_trim_start_at(s@, i as int);
        let t = s@.subrange(i as int, n as int);
        assert forall|k: int| j - i <= k < t.len() implies white_space(#[trigger] t[k]) by {
            assert(t[k] == s@[k + i]);
        }
        if j > i {
            assert(t[j - i - 1] == s@[j - 1]);
        }
        lemma_trim_end_at(t, j - i);
        assert(t.subrange(0, j - i) =~= s@.subrange(i as int, j as int));
    }
    String::from_str(s.substring_char(i, j))
}


/// The views of a sequence of strings.
pub open spec fn views(v: Seq<String>) -> Seq<Seq<char>> {
    v.map_values(|d: String| d@)
}

/// The documentation lines that count towards a description: each trimmed,
/// the empty ones left out, in their order.
pub open spec fn kept_doc_lines(raw: Seq<Seq<char>>) -> Seq<Seq<char>>
    decreases raw.len(),
{
    if raw.len() == 0 {
        seq![]
    } else {
        let p = kept_doc_lines(raw.drop_last());
        let t = trimmed(raw.last());
        if t.len() > 0 {
            p.push(t)
        } else {
            p
        }
    }
}

/// The lines joined with a newline between each two.
pub open spec fn joined_lines(ls: Seq<Seq<char>>) -> Seq<char>
    decreases ls.len(),
{
    if ls.len() == 0 {
        seq![]
    } else if ls.len() == 1 {
        ls[0]
    } else {
        joined_lines(ls.drop_last()) + seq!['\n'] + ls.last()
    }
}

/// The description that documentation lines give.
pub open spec fn doc_description(raw: Seq<Seq<char>>) -> Seq<char> {
    trimmed(joined_lines(kept_doc_lines(raw)))
}

/// Builds a description from the text of documentation lines.
pub fn description_from_docs(docs: &Vec<String>) -> (r: String)
    ensures
        r@ == doc_description(views(docs@)),
{
    let ghost raw = views(docs@);
    let mut acc = String::new();
    let mut any = false;
    let mut k: usize = 0;
    while k < docs.len()
        invariant
            k <= docs@.len(),
            raw == views(docs@),
            acc@ == joined_lines(kept_doc_lines(raw.subrange(0, k as int))),
            any == (kept_doc_lines(raw.subrange(0, k as int)).len() > 0),
        decreases docs@.len() - k,
    {
        let line = trim(docs[k].as_str());
        proof {
            assert(raw.subrange(0, k + 1).drop_last() =~= raw.subrange(0, k as int));
            assert(raw.subrange(0, k + 1).last() == docs@[k as int]@);
        }
        if line.unicode_len() > 0 {
            if any {
                acc.append("\n");
            }
            acc.append(line.as_str());
            any = true;
            proof {
                reveal_strlit("\n");
                let p = kept_doc_lines(raw.subrange(0, k as int));
                let q = p.push(line@);
                assert(q.drop_last() =~= p);
                if p.len() == 0 {
                    assert(q.len() == 1);
                    assert(acc@ =~= q[0]);
                } else {
                    assert(acc@ =~= joined_lines(p) + seq!['\n'] + line@);
                }
            }
        }
        k = k + 1;
    }
    proof {
        assert(raw.subrange(0, docs@.len() as int) =~= raw);
    }
    trim(acc.as_str())
}

/// `c` with an ASCII lower-case letter made upper case.
pub open spec fn ascii_upper(c: char) -> char {
    match c {
        'a' => 'A',
        'b' => 'B',
        'c' => 'C',
        'd' => 'D',
        'e' => 'E',
        'f' => 'F',
        'g' => 'G',
        'h' => 'H',
        'i' => 'I',
        'j' => 'J',
        'k' => 'K',
        'l' => 'L',
        'm' => 'M',
        'n' => 'N',
        'o' => 'O',
        'p' => 'P',
        'q' => 'Q',
        'r' => 'R',
        's' => 'S',
        't' => 'T',
        'u' => 'U',
        'v' => 'V',
        'w' => 'W',
        'x' => 'X',
        'y' => 'Y',
        'z' => 'Z',
        _ => c,
    }
}

/// `s` with each ASCII lower-case letter made upper case.
pub open spec fn ascii_upper_seq(s: Seq<char>) -> Seq<char> {
    s.map_values(|c: char| ascii_upper(c))
}

/// Relies on `str::to_ascii_uppercase`: each ASCII lower-case letter becomes
/// upper case, every other character stays.
#[verifier::external_body]
fn to_ascii_upper(s: &str) -> (r: String)
    ensures
        r@ == ascii_upper_seq(s@),
{
    s.to_ascii_uppercase()
}

/// The name of the function that returns a tool's descriptor.
pub open spec fn accessor_name_of(ident: Seq<char>) -> Seq<char> {
    ident + "_tool_attr"@
}

/// The name of the function that dispatches a call to a tool.
pub open spec fn wrapper_name_of(ident: Seq<char>) -> Seq<char> {
    ident + "_tool_call"@
}

/// The name of a tool's descriptor function.
pub fn accessor_name(ident: &str) -> (r: String)
    ensures
        r@ == accessor_name_of(ident@),
{
    String::from_str(ident).concat("_tool_attr")
}

/// The name of a tool's dispatch function.
pub fn wrapper_name(ident: &str) -> (r: String)
    ensures
        r@ == wrapper_name_of(ident@),
{
    String::from_str(ident).concat("_tool_call")
}

/// The name of the record type of the tool `ident`: `__`, the identifier in
/// ASCII upper case, then `ToolCallParam`.
pub open spec fn record_name_of(ident: Seq<char>) -> Seq<char> {
    "__"@ + ascii_upper_seq(ident) + "ToolCallParam"@
}

/// The name of the record type that gathers a tool's fields.
pub fn record_type_name(ident: &str) -> (r: String)
    ensures
        r@ == record_name_of(ident@),
{
    let up = to_ascii_upper(ident);
    String::from_str("__").concat(up.as_str()).concat("ToolCallParam")
}

} // verus!
