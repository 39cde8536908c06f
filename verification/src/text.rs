//! Character-level string handling: searching, attribute values, case
//! conversion and trimming, each stated over `Seq<char>`.
use vstd::prelude::*;

verus! {

// ---------------------------------------------------------------------------
// Searching
// ---------------------------------------------------------------------------

/// `p` occurs in `h` starting at index `i`.
pub open spec fn matches_at(h: Seq<char>, p: Seq<char>, i: int) -> bool {
    0 <= i && i + p.len() <= h.len() && h.subrange(i, i + p.len()) == p
}

/// The index of the first occurrence of `p` in `h` at or after `from`
/// (what `str::find` reports on `h[from..]`, shifted by `from`).
pub open spec fn find_from(h: Seq<char>, p: Seq<char>, from: int) -> Option<int>
    decreases h.len() + 1 - from,
{
    if from < 0 || from + p.len() > h.len() {
        None
    } else if matches_at(h, p, from) {
        Some(from)
    } else {
        find_from(h, p, from + 1)
    }
}

/// `p` occurs somewhere in `h` (`str::contains`).
pub open spec fn contains(h: Seq<char>, p: Seq<char>) -> bool {
    find_from(h, p, 0) is Some
}

/// `find_from` reports the first occurrence, and `None` only when there is none.
pub proof fn lemma_find_from(h: Seq<char>, p: Seq<char>, from: int)
    requires
        0 <= from,
    ensures
        find_from(h, p, from) matches Some(i) ==> {
            &&& from <= i
            &&& matches_at(h, p, i)
            &&& forall|j: int| from <= j < i ==> !#[trigger] matches_at(h, p, j)
        },
        find_from(h, p, from) is None ==> forall|j: int| from <= j ==> !#[trigger] matches_at(
            h,
            p,
            j,
        ),
    decreases h.len() + 1 - from,
{
    if from + p.len() > h.len() {
    } else if matches_at(h, p, from) {
    } else {
        lemma_find_from(h, p, from + 1);
    }
}

/// A match at `i`, with none between `from` and `i`, is what `find_from` reports.
pub proof fn lemma_find_from_first(h: Seq<char>, p: Seq<char>, from: int, i: int)
    requires
        0 <= from <= i,
        matches_at(h, p, i),
        forall|j: int| from <= j < i ==> !#[trigger] matches_at(h, p, j),
    ensures
        find_from(h, p, from) == Some(i),
    decreases i - from,
{
    if from < i {
        assert(!matches_at(h, p, from));
        lemma_find_from_first(h, p, from + 1, i);
    }
}

/// The characters of `s`, in order.
pub fn chars_of(s: &str) -> (v: Vec<char>)
    ensures
        v@ == s@,
{
    let n = s.unicode_len();
    let mut v: Vec<char> = Vec::new();
    let mut i: usize = 0;
    while i < n
        invariant
            n == s@.len(),
            i <= n,
            v@ == s@.subrange(0, i as int),
        decreases n - i,
    {
        let c = s.get_char(i);
        v.push(c);
        i = i + 1;
        assert(v@ =~= s@.subrange(0, i as int));
    }
    assert(v@ =~= s@);
    v
}

/// Does `p` occur in `h` at index `i`?
fn matches_at_exec(h: &Vec<char>, p: &Vec<char>, i: usize) -> (r: bool)
    requires
        i + p@.len() <= h@.len(),
    ensures
        r == matches_at(h@, p@, i as int),
{
    let hl = h.len();
    let mut k: usize = 0;
    while k < p.len()
        invariant
            hl == h@.len(),
            i + p@.len() <= h@.len(),
            k <= p@.len(),
            forall|j: int| 0 <= j < k ==> h@[i + j] == p@[j],
        decreases p@.len() - k,
    {
        if h[i + k] != p[k] {
            assert(h@.subrange(i as int, i + p@.len())[k as int] != p@[k as int]);
            return false;
        }
        k = k + 1;
    }
    assert(h@.subrange(i as int, i + p@.len()) =~= p@);
    true
}

/// The first occurrence of `p` in `h` at or after `from`.
pub fn find_chars_from(h: &Vec<char>, p: &Vec<char>, from: usize) -> (r: Option<usize>)
    ensures
        match r {
            Some(i) => find_from(h@, p@, from as int) == Some(i as int),
            None => find_from(h@, p@, from as int) is None,
        },
{
    let hl = h.len();
    let pl = p.len();
    if from > hl || pl > hl - from {
        return None;
    }
    if pl == 0 {
        assert(h@.subrange(from as int, from as int) =~= p@);
        return Some(from);
    }
    let mut i = from;
    while i <= hl - pl
        invariant
            from <= i <= hl - pl + 1,
            1 <= pl <= hl,
            hl == h@.len(),
            pl == p@.len(),
            find_from(h@, p@, from as int) == find_from(h@, p@, i as int),
        decreases hl - pl + 1 - i,
    {
        if matches_at_exec(h, p, i) {
            return Some(i);
        }
        i = i + 1;
    }
    None
}

/// Does `p` occur in `h`?
pub fn contains_chars(h: &Vec<char>, p: &Vec<char>) -> (r: bool)
    ensures
        r == contains(h@, p@),
{
    find_chars_from(h, p, 0).is_some()
}

/// Does the string `h` contain the string `p` (`str::contains`)?
pub fn str_contains(h: &str, p: &str) -> (r: bool)
    ensures
        r == contains(h@, p@),
{
    let hv = chars_of(h);
    let pv = chars_of(p);
    contains_chars(&hv, &pv)
}

/// Are the two strings equal, character by character?
pub fn str_eq(a: &str, b: &str) -> (r: bool)
    ensures
        r == (a@ == b@),
{
    let av = chars_of(a);
    let bv = chars_of(b);
    if av.len() != bv.len() {
        return false;
    }
    let r = matches_at_exec(&av, &bv, 0);
    assert(av@.subrange(0, bv@.len() as int) =~= av@);
    r
}

// ---------------------------------------------------------------------------
// Attribute values: `name = "value"` and `name = 'value'`
// ---------------------------------------------------------------------------

/// `name = "`
pub open spec fn double_quote_pattern(name: Seq<char>) -> Seq<char> {
    name + seq![' ', '=', ' ', '"']
}

/// `name = '`
pub open spec fn single_quote_pattern(name: Seq<char>) -> Seq<char> {
    name + seq![' ', '=', ' ', '\'']
}

/// The text between the first occurrence of `pat` and the next `q` after it.
pub open spec fn quoted_value(t: Seq<char>, pat: Seq<char>, q: char) -> Option<Seq<char>> {
    match find_from(t, pat, 0) {
        Some(s) => match find_from(t, seq![q], s + pat.len()) {
            Some(e) => Some(t.subrange(s + pat.len(), e)),
            None => None,
        },
        None => None,
    }
}

/// The value written as `name = "value"` in `t`, else as `name = 'value'`:
/// the first occurrence of the opening text counts, and the value runs to the
/// next matching quote.
pub open spec fn attr_value(t: Seq<char>, name: Seq<char>) -> Option<Seq<char>> {
    match quoted_value(t, double_quote_pattern(name), '"') {
        Some(v) => Some(v),
        None => quoted_value(t, single_quote_pattern(name), '\''),
    }
}

/// `name` followed by ` = ` and the quote `q`.
fn quote_pattern(attr_name: &str, q: char) -> (r: Vec<char>)
    ensures
        r@ == attr_name@ + seq![' ', '=', ' ', q],
{
    let mut r = chars_of(attr_name);
    r.push(' ');
    r.push('=');
    r.push(' ');
    r.push(q);
    assert(r@ =~= attr_name@ + seq![' ', '=', ' ', q]);
    r
}

fn quoted_value_exec(s: &str, t: &Vec<char>, pat: &Vec<char>, q: char) -> (r: Option<String>)
    requires
        t@ == s@,
    ensures
        match r {
            Some(v) => quoted_value(s@, pat@, q) == Some(v@),
            None => quoted_value(s@, pat@, q) is None,
        },
{
    let tl = t.len();
    match find_chars_from(t, pat, 0) {
        Some(st) => {
            proof {
                lemma_find_from(t@, pat@, 0);
            }
            let vs = st + pat.len();
            let mut qv: Vec<char> = Vec::new();
            qv.push(q);
            assert(qv@ =~= seq![q]);
            match find_chars_from(t, &qv, vs) {
                Some(e) => {
                    proof {
                        lemma_find_from(t@, qv@, vs as int);
                    }
                    let sub = s.substring_char(vs, e);
                    Some(String::from_str(sub))
                },
                None => None,
            }
        },
        None => None,
    }
}

/// Extract a string value from an attribute text like `via = "junction_table"`
/// (or `via = 'junction_table'`).
pub fn extract_attr_value(tokens_str: &str, attr_name: &str) -> (r: Option<String>)
    ensures
        match r {
            Some(v) => attr_value(tokens_str@, attr_name@) == Some(v@),
            None => attr_value(tokens_str@, attr_name@) is None,
        },
{
    let t = chars_of(tokens_str);
    let pat = quote_pattern(attr_name, '"');
    match quoted_value_exec(tokens_str, &t, &pat, '"') {
        Some(v) => Some(v),
        None => {
            let pat_single = quote_pattern(attr_name, '\'');
            quoted_value_exec(tokens_str, &t, &pat_single, '\'')
        },
    }
}

// ---------------------------------------------------------------------------
// snake_case to PascalCase
// ---------------------------------------------------------------------------

/// What `char::to_uppercase` yields for `c`, collected into a string.
pub uninterp spec fn uppercase_of(c: char) -> Seq<char>;

/// An ASCII character is one below 128.
pub open spec fn is_ascii_char(c: char) -> bool {
    c as int <= 127
}

/// Every character of `s` is ASCII.
pub open spec fn all_ascii(s: Seq<char>) -> bool {
    forall|i: int| 0 <= i < s.len() ==> is_ascii_char(#[trigger] s[i])
}

/// The ASCII upper-case form of `c`: `a`..=`z` become `A`..=`Z`, every
/// other character stays.
pub open spec fn ascii_upper(c: char) -> char {
    if 'a' <= c <= 'z' {
        (c as int - 32) as char
    } else {
        c
    }
}

/// Calls `char::to_uppercase` and collects the characters it yields. The
/// contract names the result `uppercase_of(c)` and states the ASCII cases
/// that the documentation gives: `a`..=`z` map to `A`..=`Z`, and every other
/// ASCII character, having no uppercase mapping, maps to itself. The Unicode
/// mapping of other characters is left unsaid.
#[verifier::external_body]
fn char_to_uppercase(c: char) -> (r: String)
    ensures
        r@ == uppercase_of(c),
        is_ascii_char(c) ==> r@ == seq![ascii_upper(c)],
{
    c.to_uppercase().collect()
}

/// snake_case to PascalCase: underscores are dropped and the first character
/// of each word (at the start, or right after an underscore) is upper-cased;
/// every other character is kept.
pub open spec fn pascal_case(s: Seq<char>) -> Seq<char>
    decreases s.len(),
{
    if s.len() == 0 {
        seq![]
    } else {
        let init = s.drop_last();
        let c = s.last();
        if c == '_' {
            pascal_case(init)
        } else if init.len() == 0 || init.last() == '_' {
            pascal_case(init) + uppercase_of(c)
        } else {
            pascal_case(init).push(c)
        }
    }
}

/// `pascal_case` with the ASCII upper-case mapping: what it is on ASCII text.
pub open spec fn pascal_case_ascii(s: Seq<char>) -> Seq<char>
    decreases s.len(),
{
    if s.len() == 0 {
        seq![]
    } else {
        let init = s.drop_last();
        let c = s.last();
        if c == '_' {
            pascal_case_ascii(init)
        } else if init.len() == 0 || init.last() == '_' {
            pascal_case_ascii(init).push(ascii_upper(c))
        } else {
            pascal_case_ascii(init).push(c)
        }
    }
}

/// The number of underscores in `s`.
pub open spec fn underscore_count(s: Seq<char>) -> nat
    decreases s.len(),
{
    if s.len() == 0 {
        0
    } else {
        underscore_count(s.drop_last()) + if s.last() == '_' {
            1nat
        } else {
            0nat
        }
    }
}

/// On ASCII text the PascalCase form drops exactly the underscores, keeps the
/// text ASCII, holds no underscore, and starts with a character that the
/// ASCII upper-case mapping leaves alone.
pub proof fn lemma_pascal_case_ascii_shape(s: Seq<char>)
    ensures
        pascal_case_ascii(s).len() + underscore_count(s) == s.len(),
        forall|i: int|
            0 <= i < pascal_case_ascii(s).len() ==> #[trigger] pascal_case_ascii(s)[i] != '_',
        all_ascii(s) ==> all_ascii(pascal_case_ascii(s)),
        pascal_case_ascii(s).len() > 0 ==> ascii_upper(pascal_case_ascii(s)[0])
            == pascal_case_ascii(s)[0],
    decreases s.len(),
{
    if s.len() > 0 {
        let init = s.drop_last();
        let c = s.last();
        lemma_pascal_case_ascii_shape(init);
        if init.len() > 0 {
            lemma_pascal_case_ascii_shape(init.drop_last());
        }
        if all_ascii(s) {
            assert forall|i: int| 0 <= i < init.len() implies is_ascii_char(#[trigger] init[i]) by {
                assert(init[i] == s[i]);
            }
            assert(is_ascii_char(s[s.len() - 1]));
        }
    }
}

/// Text without underscores whose first character is already upper-cased is
/// its own PascalCase form.
pub proof fn lemma_pascal_case_ascii_fixed(t: Seq<char>)
    requires
        forall|i: int| 0 <= i < t.len() ==> #[trigger] t[i] != '_',
        t.len() > 0 ==> ascii_upper(t[0]) == t[0],
    ensures
        pascal_case_ascii(t) == t,
    decreases t.len(),
{
    if t.len() > 0 {
        let init = t.drop_last();
        assert forall|i: int| 0 <= i < init.len() implies #[trigger] init[i] != '_' by {
            assert(init[i] == t[i]);
        }
        if init.len() > 0 {
            assert(init[0] == t[0]);
            assert(init.last() == t[init.len() - 1]);
        }
        lemma_pascal_case_ascii_fixed(init);
        assert(t.last() == t[t.len() - 1]);
        assert(init.push(t.last()) =~= t);
    }
}

/// Convert snake_case to PascalCase.
pub fn to_pascal_case(s: &str) -> (r: String)
    ensures
        r@ == pascal_case(s@),
        all_ascii(s@) ==> r@ == pascal_case_ascii(s@),
{
    let n = s.unicode_len();
    let mut r = String::new();
    let mut i: usize = 0;
    while i < n
        invariant
            n == s@.len(),
            i <= n,
            r@ == pascal_case(s@.subrange(0, i as int)),
            all_ascii(s@) ==> r@ == pascal_case_ascii(s@.subrange(0, i as int)),
        decreases n - i,
    {
        let c = s.get_char(i);
        assert(s@.subrange(0, i + 1).drop_last() =~= s@.subrange(0, i as int));
        if c == '_' {
        } else if i == 0 || s.get_char(i - 1) == '_' {
            let u = char_to_uppercase(c);
            proof {
                if all_ascii(s@) {
                    assert(is_ascii_char(s@[i as int]));
                }
            }
            r.append(u.as_str());
        } else {
            let one = s.substring_char(i, i + 1);
            assert(one@ =~= seq![c]);
            r.append(one);
        }
        i = i + 1;
    }
    assert(s@.subrange(0, n as int) =~= s@);
    r
}

// ---------------------------------------------------------------------------
// Trimming
// ---------------------------------------------------------------------------

/// The Unicode `White_Space` property (what `char::is_whitespace` tests).
pub open spec fn is_white_space(c: char) -> bool {
    let n = c as u32;
    ||| 9 <= n <= 13
    ||| n == 32
    ||| n == 0x85
    ||| n == 0xA0
    ||| n == 0x1680
    ||| 0x2000 <= n <= 0x200A
    ||| n == 0x2028
    ||| n == 0x2029
    ||| n == 0x202F
    ||| n == 0x205F
    ||| n == 0x3000
}

/// Does `c` have the Unicode `White_Space` property (`char::is_whitespace`)?
fn char_is_whitespace(c: char) -> (r: bool)
    ensures
        r == is_white_space(c),
{
    let n = c as u32;
    (9 <= n && n <= 13) || n == 32 || n == 0x85 || n == 0xA0 || n == 0x1680 || (0x2000 <= n && n
        <= 0x200A) || n == 0x2028 || n == 0x2029 || n == 0x202F || n == 0x205F || n == 0x3000
}

/// `s` ends with `p`.
pub open spec fn ends_with(s: Seq<char>, p: Seq<char>) -> bool {
    p.len() <= s.len() && s.subrange(s.len() - p.len(), s.len() as int) == p
}

/// `s` with every trailing repetition of `p` removed (`str::trim_end_matches`).
pub open spec fn trim_end_matches(s: Seq<char>, p: Seq<char>) -> Seq<char>
    decreases s.len(),
{
    if p.len() > 0 && ends_with(s, p) {
        trim_end_matches(s.subrange(0, s.len() - p.len()), p)
    } else {
        s
    }
}

/// `s` without trailing white space.
pub open spec fn trim_end_ws(s: Seq<char>) -> Seq<char>
    decreases s.len(),
{
    if s.len() > 0 && is_white_space(s.last()) {
        trim_end_ws(s.drop_last())
    } else {
        s
    }
}

/// `s` without leading white space.
pub open spec fn trim_start_ws(s: Seq<char>) -> Seq<char>
    decreases s.len(),
{
    if s.len() > 0 && is_white_space(s[0]) {
        trim_start_ws(s.drop_first())
    } else {
        s
    }
}

/// `s` without leading and trailing white space (`str::trim`).
pub open spec fn trim_ws(s: Seq<char>) -> Seq<char> {
    trim_start_ws(trim_end_ws(s))
}

/// `s` with every space character removed (`str::replace(" ", "")`).
pub open spec fn without_spaces(s: Seq<char>) -> Seq<char>
    decreases s.len(),
{
    if s.len() == 0 {
        s
    } else {
        let r = without_spaces(s.drop_last());
        if s.last() == ' ' {
            r
        } else {
            r.push(s.last())
        }
    }
}

fn ends_with_range(v: &Vec<char>, lo: usize, hi: usize, p: &Vec<char>) -> (r: bool)
    requires
        lo <= hi <= v@.len(),
    ensures
        r == (p@.len() > 0 && ends_with(v@.subrange(lo as int, hi as int), p@)),
{
    let pl = p.len();
    if pl == 0 || pl > hi - lo {
        return false;
    }
    let m = matches_at_exec(v, p, hi - pl);
    assert(v@.subrange(lo as int, hi as int).subrange(hi - lo - pl, hi - lo) =~= v@.subrange(
        hi - pl,
        hi as int,
    ));
    m
}

fn trim_end_matches_range(v: &Vec<char>, lo: usize, hi: usize, p: &Vec<char>) -> (h: usize)
    requires
        lo <= hi <= v@.len(),
    ensures
        lo <= h <= hi,
        v@.subrange(lo as int, h as int) == trim_end_matches(v@.subrange(lo as int, hi as int), p@),
{
    let mut h = hi;
    while ends_with_range(v, lo, h, p)
        invariant
            lo <= h <= hi <= v@.len(),
            trim_end_matches(v@.subrange(lo as int, h as int), p@) == trim_end_matches(
                v@.subrange(lo as int, hi as int),
                p@,
            ),
        decreases h,
    {
        let pl = p.len();
        assert(v@.subrange(lo as int, h as int).subrange(0, h - lo - pl) =~= v@.subrange(
            lo as int,
            h - pl,
        ));
        h = h - pl;
    }
    h
}

fn trim_end_ws_range(v: &Vec<char>, lo: usize, hi: usize) -> (h: usize)
    requires
        lo <= hi <= v@.len(),
    ensures
        lo <= h <= hi,
        v@.subrange(lo as int, h as int) == trim_end_ws(v@.subrange(lo as int, hi as int)),
{
    let mut h = hi;
    loop
        invariant
            lo <= h <= hi <= v@.len(),
            trim_end_ws(v@.subrange(lo as int, h as int)) == trim_end_ws(
                v@.subrange(lo as int, hi as int),
            ),
        ensures
            lo <= h <= hi,
            v@.subrange(lo as int, h as int) == trim_end_ws(v@.subrange(lo as int, hi as int)),
        decreases h,
    {
        if h == lo {
            break ;
        }
        let ws = char_is_whitespace(v[h - 1]);
        if !ws {
            break ;
        }
        assert(v@.subrange(lo as int, h as int).drop_last() =~= v@.subrange(lo as int, h - 1));
        h = h - 1;
    }
    h
}

fn trim_start_ws_range(v: &Vec<char>, lo: usize, hi: usize) -> (l: usize)
    requires
        lo <= hi <= v@.len(),
    ensures
        lo <= l <= hi,
        v@.subrange(l as int, hi as int) == trim_start_ws(v@.subrange(lo as int, hi as int)),
{
    let mut l = lo;
    loop
        invariant
            lo <= l <= hi <= v@.len(),
            trim_start_ws(v@.subrange(l as int, hi as int)) == trim_start_ws(
                v@.subrange(lo as int, hi as int),
            ),
        ensures
            lo <= l <= hi,
            v@.subrange(l as int, hi as int) == trim_start_ws(v@.subrange(lo as int, hi as int)),
        decreases hi - l,
    {
        if l == hi {
            break ;
        }
        let ws = char_is_whitespace(v[l]);
        if !ws {
            break ;
        }
        assert(v@.subrange(l as int, hi as int).drop_first() =~= v@.subrange(l + 1, hi as int));
        l = l + 1;
    }
    l
}

/// `s` with every space character removed.
pub fn remove_spaces(s: &str) -> (r: String)
    ensures
        r@ == without_spaces(s@),
{
    let n = s.unicode_len();
    let mut r = String::new();
    let mut i: usize = 0;
    while i < n
        invariant
            n == s@.len(),
            i <= n,
            r@ == without_spaces(s@.subrange(0, i as int)),
        decreases n - i,
    {
        let c = s.get_char(i);
        assert(s@.subrange(0, i + 1).drop_last() =~= s@.subrange(0, i as int));
        if c != ' ' {
            let one = s.substring_char(i, i + 1);
            assert(one@ =~= seq![c]);
            r.append(one);
        }
        i = i + 1;
    }
    assert(s@.subrange(0, n as int) =~= s@);
    r
}

/// An entity path's text (without spaces) with its trailing `Entity` and
/// `::` repetitions and its surrounding white space removed, in the order
/// `trim_end_matches("Entity")`, `trim_end_matches("::")`, `trim()`,
/// `trim_end_matches("::")`, `trim()`.
pub open spec fn trimmed_entity_path(s: Seq<char>) -> Seq<char> {
    trim_ws(
        trim_end_matches(
            trim_ws(trim_end_matches(trim_end_matches(s, "Entity"@), "::"@)),
            "::"@,
        ),
    )
}

/// An entity path's token text cleaned to its module path's text:
/// `super :: fruit :: Entity` becomes `super::fruit`.
pub open spec fn cleaned_entity_path(p: Seq<char>) -> Seq<char> {
    trimmed_entity_path(without_spaces(p))
}

/// The bounds of `trimmed_entity_path(v@)` within `v`.
pub fn trim_entity_path(v: &Vec<char>) -> (r: (usize, usize))
    ensures
        r.0 <= r.1 <= v@.len(),
        v@.subrange(r.0 as int, r.1 as int) == trimmed_entity_path(v@),
{
    let entity = chars_of("Entity");
    let colons = chars_of("::");
    let n = v.len();
    assert(v@.subrange(0, n as int) =~= v@);
    let h1 = trim_end_matches_range(v, 0, n, &entity);
    let h2 = trim_end_matches_range(v, 0, h1, &colons);
    let h3 = trim_end_ws_range(v, 0, h2);
    let l3 = trim_start_ws_range(v, 0, h3);
    let h4 = trim_end_matches_range(v, l3, h3, &colons);
    let h5 = trim_end_ws_range(v, l3, h4);
    let l5 = trim_start_ws_range(v, l3, h5);
    (l5, h5)
}

} // verus!
