use vstd::prelude::*;
use vstd::string::*;
use crate::token::{
    Delim, Tok, TokRange, is_punct, is_ident, entry_end, same_text, punct_is, ident_is,
    find_entry_end,
};

verus! {

/// What the grammar wanted where it found something else.
#[derive(Clone, Copy, Debug, PartialEq, Eq)]
pub enum Expected {
    Ident,
    Eq,
    Colon,
    Comma,
    Literal,
    Braces,
    Value,
    End,
}

/// Why the arguments of an attribute were refused; `at` is the position of the
/// token concerned (the length of the tokens where they ran out).
#[derive(Clone, Copy, Debug, PartialEq, Eq)]
pub enum AttrError {
    /// A key that the grammar does not know, or a flag value that is neither
    /// `true` nor `false`.
    UnknownAttribute { at: usize },
    /// An annotation whose value is a literal other than a string or a boolean;
    /// `at` is the position of its key.
    InvalidAnnotationLiteral { at: usize },
    /// A token that does not fit the grammar.
    Unexpected { at: usize, expected: Expected },
}

/// The value of one annotation.
#[derive(Clone, Debug)]
pub enum AnnotationValue {
    Text(String),
    Flag(bool),
}

/// One `key: value` pair of an annotation table.
#[derive(Clone, Debug)]
pub struct Annotation {
    pub key: String,
    pub value: AnnotationValue,
}

/// How a parameter is marked: as one field of the input, or as the whole input.
#[derive(Clone, Copy, Debug, PartialEq, Eq)]
pub enum ParamMarker {
    Param,
    Aggregated,
}

pub open spec fn unexpected(at: int, what: Expected) -> AttrError {
    AttrError::Unexpected { at: at as usize, expected: what }
}

/// What a parameter marker reads: `param`, or `aggr` or `req` for the whole input.
pub open spec fn param_marker_of(ts: Seq<Tok>) -> Result<ParamMarker, AttrError> {
    if ts.len() == 0 || !(ts[0] is Ident) {
        Err(unexpected(0, Expected::Ident))
    } else if !(is_ident(ts[0], "param"@) || is_ident(ts[0], "aggr"@) || is_ident(
        ts[0],
        "req"@,
    )) {
        Err(AttrError::UnknownAttribute { at: 0 })
    } else if ts.len() > 1 {
        Err(unexpected(1, Expected::End))
    } else if is_ident(ts[0], "param"@) {
        Ok(ParamMarker::Param)
    } else {
        Ok(ParamMarker::Aggregated)
    }
}

impl ParamMarker {
    /// Reads a parameter marker from the arguments of its attribute.
    pub fn parse(ts: &Vec<Tok>) -> (r: Result<ParamMarker, AttrError>)
        ensures
            r == param_marker_of(ts@),
    {
        if ts.len() == 0 {
            return Err(AttrError::Unexpected { at: 0, expected: Expected::Ident });
        }
        match &ts[0] {
            Tok::Ident(_) => {},
            _ => {
                return Err(AttrError::Unexpected { at: 0, expected: Expected::Ident });
            },
        }
        let is_param = ident_is(&ts[0], "param");
        if !(is_param || ident_is(&ts[0], "aggr") || ident_is(&ts[0], "req")) {
            return Err(AttrError::UnknownAttribute { at: 0 });
        }
        if ts.len() > 1 {
            return Err(AttrError::Unexpected { at: 1, expected: Expected::End });
        }
        if is_param {
            Ok(ParamMarker::Param)
        } else {
            Ok(ParamMarker::Aggregated)
        }
    }
}

/// The annotation value that a token stands for, if it is a string or a boolean.
pub open spec fn annotation_value_of(t: Tok) -> Option<AnnotationValue> {
    match t {
        Tok::Str(s) => Some(AnnotationValue::Text(s)),
        Tok::Ident(w) => if w@ == "true"@ {
            Some(AnnotationValue::Flag(true))
        } else if w@ == "false"@ {
            Some(AnnotationValue::Flag(false))
        } else {
            None
        },
        _ => None,
    }
}

/// Whether `t` is a numeric literal, which may follow a minus sign.
pub open spec fn is_numeric_lit(t: Tok) -> bool {
    match t {
        Tok::Lit(s) => s@.len() > 0 && '0' <= s@[0] && s@[0] <= '9',
        _ => false,
    }
}

/// Whether the literal of an annotation at `k` is one other than a string or
/// a boolean: any literal token, or a minus sign before a numeric literal.
pub open spec fn other_literal_at(ts: Seq<Tok>, k: int, end: int) -> bool {
    ts[k] is Lit || (is_punct(ts[k], '-') && k + 1 < end && is_numeric_lit(ts[k + 1]))
}

/// The `key: value` pairs from `i` up to `end`, separated by commas, after
/// those already in `acc`, in the order written.
pub open spec fn annotation_entries(ts: Seq<Tok>, i: int, end: int, acc: Seq<Annotation>) -> Result<
    Seq<Annotation>,
    AttrError,
>
    decreases end - i,
{
    if i >= end {
        Ok(acc)
    } else if !(ts[i] is Ident) {
        Err(unexpected(i, Expected::Ident))
    } else if !(i + 1 < end && is_punct(ts[i + 1], ':')) {
        Err(unexpected(i + 1, Expected::Colon))
    } else if !(i + 2 < end) {
        Err(unexpected(i + 2, Expected::Literal))
    } else {
        match annotation_value_of(ts[i + 2]) {
            None => if other_literal_at(ts, i + 2, end) {
                Err(AttrError::InvalidAnnotationLiteral { at: i as usize })
            } else {
                Err(unexpected(i + 2, Expected::Literal))
            },
            Some(v) => {
                let acc2 = acc.push(Annotation { key: ts[i]->Ident_0, value: v });
                if i + 3 == end {
                    Ok(acc2)
                } else if is_punct(ts[i + 3], ',') {
                    annotation_entries(ts, i + 4, end, acc2)
                } else {
                    Err(unexpected(i + 3, Expected::Comma))
                }
            },
        }
    }
}

/// An annotation table: one braced group from `v` up to `e`.
pub open spec fn annotation_table(ts: Seq<Tok>, v: int, e: int) -> Result<
    Seq<Annotation>,
    AttrError,
> {
    if v + 1 < e && ts[v] == Tok::Open(Delim::Brace) && ts[e - 1] == Tok::Close(Delim::Brace) {
        annotation_entries(ts, v + 1, e - 1, seq![])
    } else {
        Err(unexpected(v, Expected::Braces))
    }
}

fn annotation_value(t: &Tok) -> (r: Option<AnnotationValue>)
    ensures
        r == annotation_value_of(*t),
{
    match t {
        Tok::Str(s) => Some(AnnotationValue::Text(s.clone())),
        Tok::Ident(w) => {
            if same_text(w, "true") {
                Some(AnnotationValue::Flag(true))
            } else if same_text(w, "false") {
                Some(AnnotationValue::Flag(false))
            } else {
                None
            }
        },
        _ => None,
    }
}

fn numeric_lit(t: &Tok) -> (r: bool)
    ensures
        r == is_numeric_lit(*t),
{
    match t {
        Tok::Lit(s) => {
            let text = s.as_str();
            if text.unicode_len() == 0 {
                false
            } else {
                let c = text.get_char(0);
                '0' <= c && c <= '9'
            }
        },
        _ => false,
    }
}

fn other_literal(ts: &Vec<Tok>, k: usize, end: usize) -> (r: bool)
    requires
        k < end <= ts@.len(),
    ensures
        r == other_literal_at(ts@, k as int, end as int),
{
    match &ts[k] {
        Tok::Lit(_) => true,
        _ => punct_is(&ts[k], '-') && k + 1 < end && numeric_lit(&ts[k + 1]),
    }
}

/// Reads an annotation table that stands from `v` up to `e`.
pub fn parse_annotation_table(ts: &Vec<Tok>, v: usize, e: usize) -> (r: Result<
    Vec<Annotation>,
    AttrError,
>)
    requires
        v <= e <= ts@.len(),
    ensures
        match r {
            Ok(a) => annotation_table(ts@, v as int, e as int) == Ok::<Seq<Annotation>, AttrError>(a@),
            Err(x) => annotation_table(ts@, v as int, e as int) == Err::<Seq<Annotation>, AttrError>(x),
        },
{
    let braced = v < e && e - v > 1 && match (&ts[v], &ts[e - 1]) {
        (Tok::Open(Delim::Brace), Tok::Close(Delim::Brace)) => true,
        _ => false,
    };
    if !braced {
        return Err(AttrError::Unexpected { at: v, expected: Expected::Braces });
    }
    let end = e - 1;
    let mut acc: Vec<Annotation> = Vec::new();
    let mut i: usize = v + 1;
    while i < end
        invariant
            v + 1 <= i,
            end < ts@.len(),
            annotation_entries(ts@, i as int, end as int, acc@) == annotation_table(ts@, v as int, e as int),
        decreases end - i,
    {
        let key = match &ts[i] {
            Tok::Ident(k) => k.clone(),
            _ => {
                return Err(AttrError::Unexpected { at: i, expected: Expected::Ident });
            },
        };
        if !(i + 1 < end && punct_is(&ts[i + 1], ':')) {
            return Err(AttrError::Unexpected { at: i + 1, expected: Expected::Colon });
        }
        if !(i + 2 < end) {
            return Err(AttrError::Unexpected { at: i + 2, expected: Expected::Literal });
        }
        match annotation_value(&ts[i + 2]) {
            None => {
                if other_literal(ts, i + 2, end) {
                    return Err(AttrError::InvalidAnnotationLiteral { at: i });
                }
                return Err(AttrError::Unexpected { at: i + 2, expected: Expected::Literal });
            },
            Some(value) => {
                acc.push(Annotation { key, value });
            },
        }
        if i + 3 == end {
            return Ok(acc);
        }
        if !punct_is(&ts[i + 3], ',') {
            return Err(AttrError::Unexpected { at: i + 3, expected: Expected::Comma });
        }
        i = i + 4;
    }
    Ok(acc)
}


/// The arguments of `tool` on a function, as read.
pub struct FnItemAttrs {
    /// The tokens of the name expression.
    pub name: Option<TokRange>,
    /// The tokens of the description expression.
    pub description: Option<TokRange>,
    /// The tokens of the visibility of the generated functions.
    pub vis: Option<TokRange>,
    /// The whole input is one parameter.
    pub aggr: bool,
    pub annotations: Option<Vec<Annotation>>,
}

pub ghost struct FnItemAttrsView {
    pub name: Option<TokRange>,
    pub description: Option<TokRange>,
    pub vis: Option<TokRange>,
    pub aggr: bool,
    pub annotations: Option<Seq<Annotation>>,
}

impl View for FnItemAttrs {
    type V = FnItemAttrsView;

    open spec fn view(&self) -> FnItemAttrsView {
        FnItemAttrsView {
            name: self.name,
            description: self.description,
            vis: self.vis,
            aggr: self.aggr,
            annotations: match self.annotations {
                Some(a) => Some(a@),
                None => None,
            },
        }
    }
}

pub open spec fn range(s: int, e: int) -> TokRange {
    TokRange { start: s as usize, end: e as usize }
}

/// The effect of the entry from `s` up to `e` on function arguments `a`.
pub open spec fn fn_entry(ts: Seq<Tok>, s: int, e: int, a: FnItemAttrsView) -> Result<
    FnItemAttrsView,
    AttrError,
> {
    if !(s < e && ts[s] is Ident) {
        Err(unexpected(s, Expected::Ident))
    } else if is_ident(ts[s], "aggr"@) {
        if e == s + 1 {
            Ok(FnItemAttrsView { aggr: true, ..a })
        } else {
            Err(unexpected(s + 1, Expected::Comma))
        }
    } else if !(is_ident(ts[s], "name"@) || is_ident(ts[s], "description"@) || is_ident(
        ts[s],
        "vis"@,
    ) || is_ident(ts[s], "annotations"@)) {
        Err(AttrError::UnknownAttribute { at: s as usize })
    } else if !(s + 1 < e && is_punct(ts[s + 1], '=')) {
        Err(unexpected(s + 1, Expected::Eq))
    } else if is_ident(ts[s], "name"@) {
        if s + 2 < e {
            Ok(FnItemAttrsView { name: Some(range(s + 2, e)), ..a })
        } else {
            Err(unexpected(s + 2, Expected::Value))
        }
    } else if is_ident(ts[s], "description"@) {
        if s + 2 < e {
            Ok(FnItemAttrsView { description: Some(range(s + 2, e)), ..a })
        } else {
            Err(unexpected(s + 2, Expected::Value))
        }
    } else if is_ident(ts[s], "vis"@) {
        Ok(FnItemAttrsView { vis: Some(range(s + 2, e)), ..a })
    } else {
        match annotation_table(ts, s + 2, e) {
            Ok(t) => Ok(FnItemAttrsView { annotations: Some(t), ..a }),
            Err(x) => Err(x),
        }
    }
}

/// The entries from `i` on, each separated from the next by a comma outside
/// any group, applied in turn to `a`; a later entry overrides an earlier one.
pub open spec fn fn_entries(ts: Seq<Tok>, i: int, a: FnItemAttrsView) -> Result<
    FnItemAttrsView,
    AttrError,
>
    decreases ts.len() - i,
{
    if i >= ts.len() {
        Ok(a)
    } else {
        match fn_entry(ts, i, entry_end(ts, i), a) {
            Ok(b) => if i <= entry_end(ts, i) < ts.len() {
                fn_entries(ts, entry_end(ts, i) + 1, b)
            } else {
                Ok(b)
            },
            Err(x) => Err(x),
        }
    }
}

/// What the arguments of `tool` on a function read.
pub open spec fn fn_item_attrs(ts: Seq<Tok>) -> Result<FnItemAttrsView, AttrError> {
    fn_entries(
        ts,
        0,
        FnItemAttrsView {
            name: None,
            description: None,
            vis: None,
            aggr: false,
            annotations: None,
        },
    )
}

fn apply_fn_entry(ts: &Vec<Tok>, s: usize, e: usize, a: &mut FnItemAttrs) -> (r: Result<
    (),
    AttrError,
>)
    requires
        s <= e <= ts@.len(),
    ensures
        match r {
            Ok(_) => fn_entry(ts@, s as int, e as int, old(a)@) == Ok::<
                FnItemAttrsView,
                AttrError,
            >(final(a)@),
            Err(x) => fn_entry(ts@, s as int, e as int, old(a)@) == Err::<
                FnItemAttrsView,
                AttrError,
            >(x),
        },
{
    if !(s < e && match &ts[s] {
        Tok::Ident(_) => true,
        _ => false,
    }) {
        return Err(AttrError::Unexpected { at: s, expected: Expected::Ident });
    }
    if ident_is(&ts[s], "aggr") {
        if e == s + 1 {
            a.aggr = true;
            return Ok(());
        }
        return Err(AttrError::Unexpected { at: s + 1, expected: Expected::Comma });
    }
    let is_name = ident_is(&ts[s], "name");
    let is_desc = ident_is(&ts[s], "description");
    let is_vis = ident_is(&ts[s], "vis");
    if !(is_name || is_desc || is_vis || ident_is(&ts[s], "annotations")) {
        return Err(AttrError::UnknownAttribute { at: s });
    }
    if !(s + 1 < e && punct_is(&ts[s + 1], '=')) {
        return Err(AttrError::Unexpected { at: s + 1, expected: Expected::Eq });
    }
    let value = TokRange { start: s + 2, end: e };
    if is_name {
        if s + 2 < e {
            a.name = Some(value);
            Ok(())
        } else {
            Err(AttrError::Unexpected { at: s + 2, expected: Expected::Value })
        }
    } else if is_desc {
        if s + 2 < e {
            a.description = Some(value);
            Ok(())
        } else {
            Err(AttrError::Unexpected { at: s + 2, expected: Expected::Value })
        }
    } else if is_vis {
        a.vis = Some(value);
        Ok(())
    } else {
        match parse_annotation_table(ts, s + 2, e) {
            Ok(t) => {
                a.annotations = Some(t);
                Ok(())
            },
            Err(x) => Err(x),
        }
    }
}

impl FnItemAttrs {
    /// Reads the arguments of `tool` on a function: comma-separated entries
    /// `name = <expr>`, `description = <expr>`, `vis = <visibility>`,
    /// `annotations = { key: <string or bool>, .. }` and `aggr`. A value runs
    /// to the next comma outside every bracketed group; angle brackets do not
    /// group, so a value with a comma between them (`<T as X<A, B>>::N`) must
    /// be put in parentheses.
    pub fn parse(ts: &Vec<Tok>) -> (r: Result<FnItemAttrs, AttrError>)
        ensures
            match r {
                Ok(a) => fn_item_attrs(ts@) == Ok::<FnItemAttrsView, AttrError>(a@),
                Err(x) => fn_item_attrs(ts@) == Err::<FnItemAttrsView, AttrError>(x),
            },
    {
        let mut a = FnItemAttrs {
            name: None,
            description: None,
            vis: None,
            aggr: false,
            annotations: None,
        };
        let mut i: usize = 0;
        while i < ts.len()
            invariant
                fn_entries(ts@, i as int, a@) == fn_item_attrs(ts@),
            decreases ts@.len() - i,
        {
            let e = find_entry_end(ts, i);
            match apply_fn_entry(ts, i, e, &mut a) {
                Ok(_) => {},
                Err(x) => {
                    return Err(x);
                },
            }
            if e == ts.len() {
                return Ok(a);
            }
            i = e + 1;
        }
        Ok(a)
    }
}


/// The arguments of `tool` on an impl block, as read.
#[derive(Clone, Debug)]
pub struct ImplItemAttrs {
    /// `Some` where `tool_box` is given; inside, the binding's identifier where
    /// one is given.
    pub tool_box: Option<Option<String>>,
    /// Whether to implement the handler interface as well.
    pub default_build: bool,
    /// The tokens of the description expression.
    pub description: Option<TokRange>,
}

/// The effect of the entry from `s` up to `e` on impl block arguments `a`.
pub open spec fn impl_entry(ts: Seq<Tok>, s: int, e: int, a: ImplItemAttrs) -> Result<
    ImplItemAttrs,
    AttrError,
> {
    if !(s < e && ts[s] is Ident) {
        Err(unexpected(s, Expected::Ident))
    } else if !(is_ident(ts[s], "tool_box"@) || is_ident(ts[s], "default_build"@) || is_ident(
        ts[s],
        "description"@,
    )) {
        Err(AttrError::UnknownAttribute { at: s as usize })
    } else if e == s + 1 {
        if is_ident(ts[s], "tool_box"@) {
            Ok(ImplItemAttrs { tool_box: Some(None), ..a })
        } else if is_ident(ts[s], "default_build"@) {
            Ok(ImplItemAttrs { default_build: true, ..a })
        } else {
            Ok(a)
        }
    } else if !is_punct(ts[s + 1], '=') {
        Err(unexpected(s + 1, Expected::Comma))
    } else if is_ident(ts[s], "tool_box"@) {
        if !(s + 2 < e && ts[s + 2] is Ident) {
            Err(unexpected(s + 2, Expected::Ident))
        } else if e != s + 3 {
            Err(unexpected(s + 3, Expected::Comma))
        } else {
            Ok(ImplItemAttrs { tool_box: Some(Some(ts[s + 2]->Ident_0)), ..a })
        }
    } else if !(s + 2 < e) {
        Err(unexpected(s + 2, Expected::Value))
    } else if is_ident(ts[s], "default_build"@) {
        if e == s + 3 && is_ident(ts[s + 2], "true"@) {
            Ok(ImplItemAttrs { default_build: true, ..a })
        } else if e == s + 3 && is_ident(ts[s + 2], "false"@) {
            Ok(ImplItemAttrs { default_build: false, ..a })
        } else {
            Err(AttrError::UnknownAttribute { at: s as usize })
        }
    } else {
        Ok(ImplItemAttrs { description: Some(range(s + 2, e)), ..a })
    }
}

/// The entries from `i` on applied in turn to `a`.
pub open spec fn impl_entries(ts: Seq<Tok>, i: int, a: ImplItemAttrs) -> Result<
    ImplItemAttrs,
    AttrError,
>
    decreases ts.len() - i,
{
    if i >= ts.len() {
        Ok(a)
    } else {
        match impl_entry(ts, i, entry_end(ts, i), a) {
            Ok(b) => if i <= entry_end(ts, i) < ts.len() {
                impl_entries(ts, entry_end(ts, i) + 1, b)
            } else {
                Ok(b)
            },
            Err(x) => Err(x),
        }
    }
}

/// What the arguments of `tool` on an impl block read; the handler interface is
/// built unless `default_build = false` says otherwise.
pub open spec fn impl_item_attrs(ts: Seq<Tok>) -> Result<ImplItemAttrs, AttrError> {
    impl_entries(ts, 0, ImplItemAttrs { tool_box: None, default_build: true, description: None })
}

fn apply_impl_entry(ts: &Vec<Tok>, s: usize, e: usize, a: &mut ImplItemAttrs) -> (r: Result<
    (),
    AttrError,
>)
    requires
        s <= e <= ts@.len(),
    ensures
        match r {
            Ok(_) => impl_entry(ts@, s as int, e as int, *old(a)) == Ok::<
                ImplItemAttrs,
                AttrError,
            >(*final(a)),
            Err(x) => impl_entry(ts@, s as int, e as int, *old(a)) == Err::<
                ImplItemAttrs,
                AttrError,
            >(x),
        },
{
    if !(s < e && match &ts[s] {
        Tok::Ident(_) => true,
        _ => false,
    }) {
        return Err(AttrError::Unexpected { at: s, expected: Expected::Ident });
    }
    let is_box = ident_is(&ts[s], "tool_box");
    let is_build = ident_is(&ts[s], "default_build");
    let is_desc = ident_is(&ts[s], "description");
    if !(is_box || is_build || is_desc) {
        return Err(AttrError::UnknownAttribute { at: s });
    }
    if e == s + 1 {
        if is_box {
            a.tool_box = Some(None);
        } else if is_build {
            a.default_build = true;
        }
        return Ok(());
    }
    if !punct_is(&ts[s + 1], '=') {
        return Err(AttrError::Unexpected { at: s + 1, expected: Expected::Comma });
    }
    if is_box {
        let binding = match (s + 2 < e, if s + 2 < e {
            Some(&ts[s + 2])
        } else {
            None
        }) {
            (true, Some(Tok::Ident(b))) => b.clone(),
            _ => {
                return Err(AttrError::Unexpected { at: s + 2, expected: Expected::Ident });
            },
        };
        if e != s + 3 {
            return Err(AttrError::Unexpected { at: s + 3, expected: Expected::Comma });
        }
        a.tool_box = Some(Some(binding));
        return Ok(());
    }
    if !(s + 2 < e) {
        return Err(AttrError::Unexpected { at: s + 2, expected: Expected::Value });
    }
    if is_build {
        if e == s + 3 && ident_is(&ts[s + 2], "true") {
            a.default_build = true;
            Ok(())
        } else if e == s + 3 && ident_is(&ts[s + 2], "false") {
            a.default_build = false;
            Ok(())
        } else {
            Err(AttrError::UnknownAttribute { at: s })
        }
    } else {
        a.description = Some(TokRange { start: s + 2, end: e });
        Ok(())
    }
}

impl ImplItemAttrs {
    /// Reads the arguments of `tool` on an impl block: comma-separated entries
    /// `tool_box` or `tool_box = <ident>`, `default_build` or
    /// `default_build = <true or false>`, and `description = <expr>`.
    pub fn parse(ts: &Vec<Tok>) -> (r: Result<ImplItemAttrs, AttrError>)
        ensures
            match r {
                Ok(a) => impl_item_attrs(ts@) == Ok::<ImplItemAttrs, AttrError>(a),
                Err(x) => impl_item_attrs(ts@) == Err::<ImplItemAttrs, AttrError>(x),
            },
    {
        let mut a = ImplItemAttrs { tool_box: None, default_build: true, description: None };
        let mut i: usize = 0;
        while i < ts.len()
            invariant
                impl_entries(ts@, i as int, a) == impl_item_attrs(ts@),
            decreases ts@.len() - i,
        {
            let e = find_entry_end(ts, i);
            match apply_impl_entry(ts, i, e, &mut a) {
                Ok(_) => {},
                Err(x) => {
                    return Err(x);
                },
            }
            if e == ts.len() {
                return Ok(a);
            }
            i = e + 1;
        }
        Ok(a)
    }
}

} // verus!
