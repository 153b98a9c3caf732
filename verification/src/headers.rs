//! Ordered header multimaps and the merge that moves headers between
//! them while honouring a prohibition list.
//!
//! Header names compare case-insensitively everywhere: a prohibition
//! list bans every spelling of a name, and lookups find every spelling.

use vstd::prelude::*;

verus! {

/// One header entry.
#[derive(Debug, PartialEq, Eq)]
#[verifier::ext_equal]
pub struct Header {
    pub name: String,
    pub value: String,
}

impl Clone for Header {
    fn clone(&self) -> (res: Header)
        ensures
            res == *self,
    {
        let res = Header { name: self.name.clone(), value: self.value.clone() };
        proof {
            assert(res =~= *self);
        }
        res
    }
}

/// An ordered multimap of headers: entries keep their insertion order,
/// and a name may appear more than once.
#[derive(Debug, PartialEq, Eq)]
pub struct Headers {
    pub entries: Vec<Header>,
}

impl View for Headers {
    type V = Seq<Header>;

    open spec fn view(&self) -> Seq<Header> {
        self.entries@
    }
}

/// The character with an ASCII upper-case letter folded to lower case.
pub open spec fn spec_lower_char(c: char) -> char {
    if 'A' <= c && c <= 'Z' {
        (((c as u32) + 32) as u8) as char
    } else {
        c
    }
}

/// The text with every ASCII upper-case letter folded to lower case.
pub open spec fn spec_lower(s: Seq<char>) -> Seq<char> {
    s.map_values(|c: char| spec_lower_char(c))
}

/// Folds an ASCII upper-case letter to lower case.
pub fn lower_char(c: char) -> (r: char)
    ensures
        r == spec_lower_char(c),
{
    if c >= 'A' && c <= 'Z' {
        ((c as u8) + 32) as char
    } else {
        c
    }
}

/// Whether two strings hold the same characters up to ASCII case.
pub fn str_eq_ignore_case(a: &str, b: &str) -> (r: bool)
    ensures
        r == (spec_lower(a@) == spec_lower(b@)),
{
    let a_len = a.unicode_len();
    let b_len = b.unicode_len();
    if a_len != b_len {
        proof {
            assert(spec_lower(a@).len() != spec_lower(b@).len());
        }
        return false;
    }
    let mut i: usize = 0;
    while i < a_len
        invariant
            i <= a_len,
            a_len == a@.len(),
            a_len == b@.len(),
            forall|j: int| 0 <= j < i ==> spec_lower_char(a@[j]) == spec_lower_char(b@[j]),
        decreases a_len - i,
    {
        if lower_char(a.get_char(i)) != lower_char(b.get_char(i)) {
            proof {
                assert(spec_lower(a@)[i as int] != spec_lower(b@)[i as int]);
            }
            return false;
        }
        i = i + 1;
    }
    proof {
        assert(spec_lower(a@) =~= spec_lower(b@));
    }
    true
}

/// The views of a list of string slices.
pub open spec fn spec_str_views(list: Seq<&str>) -> Seq<Seq<char>> {
    list.map_values(|p: &str| p@)
}

/// Whether the prohibition list holds this name, compared without
/// regard to ASCII case.
pub open spec fn spec_name_prohibited(prohibited: Seq<Seq<char>>, name: Seq<char>) -> bool {
    exists|i: int| 0 <= i < prohibited.len() && spec_lower(prohibited[i]) == spec_lower(name)
}

/// Tests a name against a prohibition list, without regard to case.
pub fn name_prohibited(prohibited: &Vec<&str>, name: &str) -> (r: bool)
    ensures
        r == spec_name_prohibited(spec_str_views(prohibited@), name@),
{
    let n = prohibited.len();
    let mut i: usize = 0;
    while i < n
        invariant
            i <= n,
            n == prohibited@.len(),
            forall|j: int| 0 <= j < i ==> spec_lower(prohibited@[j]@) != spec_lower(name@),
        decreases n - i,
    {
        if str_eq_ignore_case(prohibited[i], name) {
            proof {
                assert(spec_lower(spec_str_views(prohibited@)[i as int]) == spec_lower(name@));
            }
            return true;
        }
        i = i + 1;
    }
    proof {
        assert forall|j: int| 0 <= j < prohibited@.len() implies spec_lower(
            spec_str_views(prohibited@)[j],
        ) != spec_lower(name@) by {
            assert(spec_str_views(prohibited@)[j] == prohibited@[j]@);
        }
    }
    false
}

/// Prohibition is strictly case-insensitive: names equal up to ASCII
/// case are either both banned or both kept, whichever direction the
/// headers travel.
pub proof fn lemma_prohibition_case_insensitive(
    prohibited: Seq<Seq<char>>,
    name_a: Seq<char>,
    name_b: Seq<char>,
)
    requires
        spec_lower(name_a) == spec_lower(name_b),
    ensures
        spec_name_prohibited(prohibited, name_a) == spec_name_prohibited(prohibited, name_b),
{
}

/// Whether two prohibition lists are the same up to ASCII case,
/// entry by entry.
pub open spec fn spec_lists_equal_up_to_case(a: Seq<Seq<char>>, b: Seq<Seq<char>>) -> bool {
    a.len() == b.len() && forall|i: int|
        0 <= i < a.len() ==> spec_lower(#[trigger] a[i]) == spec_lower(b[i])
}

/// Prohibition lists that differ only in case ban the same names.
pub proof fn lemma_name_prohibited_up_to_case(
    a: Seq<Seq<char>>,
    b: Seq<Seq<char>>,
    name: Seq<char>,
)
    requires
        spec_lists_equal_up_to_case(a, b),
    ensures
        spec_name_prohibited(a, name) == spec_name_prohibited(b, name),
{
    if spec_name_prohibited(a, name) {
        let i = choose|i: int| 0 <= i < a.len() && spec_lower(a[i]) == spec_lower(name);
        assert(spec_lower(b[i]) == spec_lower(name));
    }
    if spec_name_prohibited(b, name) {
        let i = choose|i: int| 0 <= i < b.len() && spec_lower(b[i]) == spec_lower(name);
        assert(spec_lower(a[i]) == spec_lower(name));
    }
}

/// The entries with every entry of this (lower-cased) name removed.
pub open spec fn spec_remove_name(s: Seq<Header>, name_lower: Seq<char>) -> Seq<Header>
    decreases s.len(),
{
    if s.len() == 0 {
        Seq::empty()
    } else {
        let rest = spec_remove_name(s.drop_last(), name_lower);
        if spec_lower(s.last().name@) == name_lower {
            rest
        } else {
            rest.push(s.last())
        }
    }
}

/// Builds the entry list with every entry of this name (compared
/// without regard to case) removed.
fn remove_name(entries: &Vec<Header>, name: &str) -> (r: Vec<Header>)
    ensures
        r@ == spec_remove_name(entries@, spec_lower(name@)),
{
    let n = entries.len();
    let mut out: Vec<Header> = Vec::new();
    let mut i: usize = 0;
    while i < n
        invariant
            i <= n,
            n == entries@.len(),
            out@ == spec_remove_name(entries@.take(i as int), spec_lower(name@)),
        decreases n - i,
    {
        proof {
            assert(entries@.take(i + 1).drop_last() =~= entries@.take(i as int));
            assert(entries@.take(i + 1).last() == entries@[i as int]);
        }
        if !str_eq_ignore_case(entries[i].name.as_str(), name) {
            out.push(entries[i].clone());
        }
        i = i + 1;
    }
    proof {
        assert(entries@.take(n as int) =~= entries@);
    }
    out
}

/// The destination after the first `n` source entries were drained
/// into it, in order: each entry whose name is not prohibited removes
/// every destination entry of its name and is appended, so the last
/// source value of a multi-valued name survives.
pub open spec fn spec_merge_prefix(
    dest: Seq<Header>,
    src: Seq<Header>,
    prohibited: Seq<Seq<char>>,
    n: int,
) -> Seq<Header>
    decreases n,
{
    if n <= 0 {
        dest
    } else {
        let d = spec_merge_prefix(dest, src, prohibited, n - 1);
        let h = src[n - 1];
        if !spec_name_prohibited(prohibited, h.name@) {
            spec_remove_name(d, spec_lower(h.name@)).push(h)
        } else {
            d
        }
    }
}

/// The destination after the whole source was drained into it.
pub open spec fn spec_merge(
    dest: Seq<Header>,
    src: Seq<Header>,
    prohibited: Seq<Seq<char>>,
) -> Seq<Header> {
    spec_merge_prefix(dest, src, prohibited, src.len() as int)
}

/// The merge enforces its prohibition list strictly without regard to
/// ASCII case: lists that differ only in case drain a source into a
/// destination identically.
pub proof fn lemma_merge_case_insensitive(
    dest: Seq<Header>,
    src: Seq<Header>,
    a: Seq<Seq<char>>,
    b: Seq<Seq<char>>,
)
    requires
        spec_lists_equal_up_to_case(a, b),
    ensures
        spec_merge(dest, src, a) == spec_merge(dest, src, b),
{
    lemma_merge_prefix_case_insensitive(dest, src, a, b, src.len() as int);
}

proof fn lemma_merge_prefix_case_insensitive(
    dest: Seq<Header>,
    src: Seq<Header>,
    a: Seq<Seq<char>>,
    b: Seq<Seq<char>>,
    n: int,
)
    requires
        spec_lists_equal_up_to_case(a, b),
    ensures
        spec_merge_prefix(dest, src, a, n) == spec_merge_prefix(dest, src, b, n),
    decreases n,
{
    if n > 0 {
        lemma_merge_prefix_case_insensitive(dest, src, a, b, n - 1);
        lemma_name_prohibited_up_to_case(a, b, src[n - 1].name@);
    }
}

/// The inbound filter enforces its prohibition list the same way:
/// lists that differ only in case keep the same entries.
pub proof fn lemma_retain_case_insensitive(
    s: Seq<Header>,
    a: Seq<Seq<char>>,
    b: Seq<Seq<char>>,
)
    requires
        spec_lists_equal_up_to_case(a, b),
    ensures
        spec_retain_allowed(s, a) == spec_retain_allowed(s, b),
    decreases s.len(),
{
    if s.len() > 0 {
        lemma_retain_case_insensitive(s.drop_last(), a, b);
        lemma_name_prohibited_up_to_case(a, b, s.last().name@);
    }
}

/// Drains `src` into `dest`, entry by entry in insertion order: if an
/// entry's name is not on the prohibition list, every `dest` entry of
/// that name is removed and the entry is appended, so the last source
/// value of a multi-valued name survives. Name comparisons ignore
/// ASCII case.
pub fn move_and_replace_headers(dest: &mut Headers, src: &mut Headers, prohibited: &Vec<&str>)
    ensures
        final(dest)@ == spec_merge(old(dest)@, old(src)@, spec_str_views(prohibited@)),
        final(src)@ =~= Seq::<Header>::empty(),
{
    let n = src.entries.len();
    let mut k: usize = 0;
    while k < n
        invariant
            k <= n,
            n == src.entries@.len(),
            src.entries@ == old(src).entries@,
            dest@ == spec_merge_prefix(
                old(dest)@,
                old(src)@,
                spec_str_views(prohibited@),
                k as int,
            ),
        decreases n - k,
    {
        if !name_prohibited(prohibited, src.entries[k].name.as_str()) {
            let kept = remove_name(&dest.entries, src.entries[k].name.as_str());
            dest.entries = kept;
            dest.entries.push(src.entries[k].clone());
        }
        k = k + 1;
    }
    src.entries = Vec::new();
}

/// The entries whose names are not on the prohibition list, in order.
pub open spec fn spec_retain_allowed(s: Seq<Header>, prohibited: Seq<Seq<char>>) -> Seq<Header>
    decreases s.len(),
{
    if s.len() == 0 {
        Seq::empty()
    } else {
        let rest = spec_retain_allowed(s.drop_last(), prohibited);
        if spec_name_prohibited(prohibited, s.last().name@) {
            rest
        } else {
            rest.push(s.last())
        }
    }
}

/// Copies the headers whose names are not on the prohibition list,
/// keeping their order and every value of a multi-valued name.
pub fn headers_without_names(headers: &Headers, prohibited: &Vec<&str>) -> (r: Headers)
    ensures
        r@ == spec_retain_allowed(headers@, spec_str_views(prohibited@)),
{
    let n = headers.entries.len();
    let mut out: Vec<Header> = Vec::new();
    let mut i: usize = 0;
    while i < n
        invariant
            i <= n,
            n == headers.entries@.len(),
            out@ == spec_retain_allowed(
                headers.entries@.take(i as int),
                spec_str_views(prohibited@),
            ),
        decreases n - i,
    {
        proof {
            assert(headers.entries@.take(i + 1).drop_last() =~= headers.entries@.take(i as int));
            assert(headers.entries@.take(i + 1).last() == headers.entries@[i as int]);
        }
        if !name_prohibited(prohibited, headers.entries[i].name.as_str()) {
            out.push(headers.entries[i].clone());
        }
        i = i + 1;
    }
    proof {
        assert(headers.entries@.take(n as int) =~= headers.entries@);
    }
    Headers { entries: out }
}

/// The first entry of this name, compared without regard to case.
pub open spec fn spec_by_name(s: Seq<Header>, name: Seq<char>) -> Option<Header>
    decreases s.len(),
{
    if s.len() == 0 {
        None
    } else if spec_lower(s[0].name@) == spec_lower(name) {
        Some(s[0])
    } else {
        spec_by_name(s.drop_first(), name)
    }
}

impl Headers {
    /// An empty header collection.
    pub fn new() -> (r: Headers)
        ensures
            r@ =~= Seq::<Header>::empty(),
    {
        Headers { entries: Vec::new() }
    }

    /// Appends an entry, after any existing ones.
    pub fn append(&mut self, name: String, value: String)
        ensures
            final(self)@ == old(self)@.push(Header { name, value }),
    {
        self.entries.push(Header { name, value });
    }

    /// The value of the first entry of this name, compared without
    /// regard to ASCII case.
    pub fn by_name(&self, name: &str) -> (r: Option<&String>)
        ensures
            match r {
                Some(value) => spec_by_name(self@, name@) matches Some(h) && h.value == *value,
                None => spec_by_name(self@, name@) is None,
            },
    {
        let n = self.entries.len();
        let mut i: usize = 0;
        proof {
            assert(self@.skip(0) =~= self@);
        }
        while i < n
            invariant
                i <= n,
                n == self.entries@.len(),
                spec_by_name(self@, name@) == spec_by_name(self@.skip(i as int), name@),
            decreases n - i,
        {
            proof {
                assert(self@.skip(i as int).drop_first() =~= self@.skip(i + 1));
                assert(self@.skip(i as int)[0] == self@[i as int]);
            }
            if str_eq_ignore_case(self.entries[i].name.as_str(), name) {
                return Some(&self.entries[i].value);
            }
            i = i + 1;
        }
        proof {
            assert(self@.skip(n as int) =~= Seq::<Header>::empty());
        }
        None
    }

    /// The index of the first entry of this name, compared without
    /// regard to ASCII case.
    fn index_of_name(&self, name: &str) -> (r: Option<usize>)
        ensures
            match r {
                Some(i) => i < self@.len() && spec_by_name(self@, name@) == Some(self@[i as int]),
                None => spec_by_name(self@, name@) is None,
            },
    {
        let n = self.entries.len();
        let mut i: usize = 0;
        proof {
            assert(self@.skip(0) =~= self@);
        }
        while i < n
            invariant
                i <= n,
                n == self.entries@.len(),
                spec_by_name(self@, name@) == spec_by_name(self@.skip(i as int), name@),
            decreases n - i,
        {
            proof {
                assert(self@.skip(i as int).drop_first() =~= self@.skip(i + 1));
                assert(self@.skip(i as int)[0] == self@[i as int]);
            }
            if str_eq_ignore_case(self.entries[i].name.as_str(), name) {
                return Some(i);
            }
            i = i + 1;
        }
        proof {
            assert(self@.skip(n as int) =~= Seq::<Header>::empty());
        }
        None
    }

    /// Removes every entry of this name, compared without regard to
    /// ASCII case, and returns the value of the first one removed.
    pub fn remove(&mut self, name: &str) -> (r: Option<String>)
        ensures
            final(self)@ == spec_remove_name(old(self)@, spec_lower(name@)),
            (match r {
                Some(v) => spec_by_name(old(self)@, name@) matches Some(h) && h.value == v,
                None => spec_by_name(old(self)@, name@) is None,
            }),
    {
        let first = self.index_of_name(name);
        let removed = match first {
            Some(i) => Some(self.entries[i].value.clone()),
            None => None,
        };
        self.entries = remove_name(&self.entries, name);
        removed
    }

    /// All entries, in insertion order.
    pub fn all(&self) -> (r: &Vec<Header>)
        ensures
            r@ == self@,
    {
        &self.entries
    }
}

impl Clone for Headers {
    fn clone(&self) -> (res: Headers)
        ensures
            res@ == self@,
    {
        let n = self.entries.len();
        let mut out: Vec<Header> = Vec::new();
        let mut i: usize = 0;
        while i < n
            invariant
                i <= n,
                n == self.entries@.len(),
                out@ =~= self.entries@.take(i as int),
            decreases n - i,
        {
            out.push(self.entries[i].clone());
            i = i + 1;
        }
        proof {
            assert(self.entries@.take(n as int) =~= self.entries@);
        }
        Headers { entries: out }
    }
}

} // verus!
