//! Tag memory: reading the page groups of a detected tag in order until one fails,
//! and decoding the identifier that the memory carries as ASCII `en` followed by
//! decimal digits.
use vstd::prelude::*;

verus! {

/// Pages of the tag type read here (pages 0 to 44).
pub const NTAG_PAGE_COUNT: u8 = 45;
/// Pages returned by one read.
pub const PAGES_PER_READ: u8 = 4;
/// First byte of the identifier marker, ASCII `e`.
pub const MARKER_FIRST: u8 = 0x65;
/// Second byte of the identifier marker, ASCII `n`.
pub const MARKER_SECOND: u8 = 0x6E;

/// Whether `b` is an ASCII decimal digit.
pub open spec fn is_digit(b: u8) -> bool {
    0x30 <= b <= 0x39
}

/// The first position at or after `i` where the marker starts.
pub open spec fn find_marker(s: Seq<u8>, i: int) -> Option<int>
    decreases s.len() - i,
{
    if i < 0 || i + 1 >= s.len() {
        None
    } else if s[i] == MARKER_FIRST && s[i + 1] == MARKER_SECOND {
        Some(i)
    } else {
        find_marker(s, i + 1)
    }
}

/// The length of the run of digits starting at `i`.
pub open spec fn digit_run(s: Seq<u8>, i: int) -> nat
    decreases s.len() - i,
{
    if 0 <= i < s.len() && is_digit(s[i]) {
        1 + digit_run(s, i + 1)
    } else {
        0
    }
}

/// The decimal value of the digits `d`, most significant first.
pub open spec fn digits_value(d: Seq<u8>) -> nat
    decreases d.len(),
{
    if d.len() == 0 {
        0
    } else {
        digits_value(d.drop_last()) * 10 + (d.last() - 0x30) as nat
    }
}

/// The identifier in tag memory `s`: the value of the maximal digit run right after
/// the first marker. None where there is no marker, no digit follows it, or the
/// value exceeds `u32::MAX`.
pub open spec fn identifier_of(s: Seq<u8>) -> Option<u32> {
    match find_marker(s, 0) {
        None => None,
        Some(p) => {
            let n = digit_run(s, p + 2);
            let v = digits_value(s.subrange(p + 2, p + 2 + n));
            if n == 0 || v > u32::MAX {
                None
            } else {
                Some(v as u32)
            }
        },
    }
}

proof fn lemma_digits_value_push(d: Seq<u8>, b: u8)
    requires
        is_digit(b),
    ensures
        digits_value(d.push(b)) == digits_value(d) * 10 + (b - 0x30),
        digits_value(d.push(b)) >= digits_value(d),
{
    assert(d.push(b).drop_last() =~= d);
}

/// Decodes the identifier in tag memory `data`.
pub fn decode_identifier(data: &[u8]) -> (r: Option<u32>)
    ensures
        r == identifier_of(data@),
{
    let ghost s = data@;
    let n = data.len();
    if n < 2 {
        return None;
    }
    let mut pos: usize = 0;
    while pos + 1 < n && !(data[pos] == MARKER_FIRST && data[pos + 1] == MARKER_SECOND)
        invariant
            s == data@,
            n == s.len(),
            2 <= n,
            pos + 1 <= n,
            find_marker(s, pos as int) == find_marker(s, 0),
        decreases n - pos,
    {
        pos = pos + 1;
    }
    if pos + 1 >= n {
        return None;
    }
    assert(find_marker(s, 0) == Some(pos as int));
    let start = pos + 2;
    let mut j: usize = start;
    let mut value: u32 = 0;
    let mut overflow = false;
    assert(s.subrange(start as int, start as int) =~= Seq::<u8>::empty());
    while j < n && 0x30 <= data[j] && data[j] <= 0x39
        invariant
            s == data@,
            n == s.len(),
            start <= j <= n,
            digit_run(s, start as int) == (j - start) + digit_run(s, j as int),
            overflow ==> digits_value(s.subrange(start as int, j as int)) > u32::MAX,
            !overflow ==> value == digits_value(s.subrange(start as int, j as int)),
        decreases n - j,
    {
        let ghost prefix = s.subrange(start as int, j as int);
        proof {
            assert(s.subrange(start as int, j + 1) =~= prefix.push(s[j as int]));
            lemma_digits_value_push(prefix, s[j as int]);
        }
        if !overflow {
            match value.checked_mul(10) {
                Some(v) => match v.checked_add((data[j] - 0x30) as u32) {
                    Some(w) => {
                        value = w;
                    },
                    None => {
                        overflow = true;
                    },
                },
                None => {
                    overflow = true;
                },
            }
        }
        j = j + 1;
    }
    if j == start || overflow {
        None
    } else {
        Some(value)
    }
}

/// The bytes that reads with the answers `groups` collect: the data of each
/// successful read up to the first failed one.
pub open spec fn collected(groups: Seq<Option<Seq<u8>>>) -> Seq<u8>
    decreases groups.len(),
{
    if groups.len() == 0 {
        Seq::empty()
    } else {
        match groups[0] {
            Some(d) => d + collected(groups.drop_first()),
            None => Seq::empty(),
        }
    }
}

/// Whether one of the answers `groups` is a failed read.
pub open spec fn has_failure(groups: Seq<Option<Seq<u8>>>) -> bool {
    exists|k: int| 0 <= k < groups.len() && groups[k] is None
}

/// The first page of the read that follows the answers `groups`: reads go 4 pages
/// at a time from page 0, and end at the first failure or past the last page.
pub open spec fn pending_after(groups: Seq<Option<Seq<u8>>>) -> Option<u8> {
    if has_failure(groups) || PAGES_PER_READ * groups.len() >= NTAG_PAGE_COUNT {
        None
    } else {
        Some((PAGES_PER_READ * groups.len()) as u8)
    }
}

/// Reads the page groups of a tag, 0, 4, 8, ... up to the last page, and stops at
/// the first read that fails.
pub struct PageReader {
    next_page: u8,
    done: bool,
    data: Vec<u8>,
    history: Ghost<Seq<Option<Seq<u8>>>>,
}

impl PageReader {
    /// The reader's state agrees with the answers recorded.
    pub closed spec fn wf(&self) -> bool {
        &&& self.data@ == collected(self.answers())
        &&& self.done == has_failure(self.answers())
        &&& !self.done ==> self.next_page == PAGES_PER_READ * self.answers().len()
        &&& self.answers().len() <= 12
    }

    /// The answers recorded so far, one for each read.
    pub closed spec fn answers(&self) -> Seq<Option<Seq<u8>>> {
        self.history@
    }

    /// The bytes collected so far.
    pub closed spec fn bytes_spec(&self) -> Seq<u8> {
        self.data@
    }

    /// The first page of the next read, if any is left.
    pub closed spec fn pending(&self) -> Option<u8> {
        if self.done || self.next_page >= NTAG_PAGE_COUNT {
            None
        } else {
            Some(self.next_page)
        }
    }

    /// A reader with nothing read yet.
    pub fn new() -> (r: PageReader)
        ensures
            r.wf(),
            r.bytes_spec() == Seq::<u8>::empty(),
            r.answers() == Seq::<Option<Seq<u8>>>::empty(),
            r.pending() == Some(0u8),
            r.pending() == pending_after(r.answers()),
    {
        PageReader { next_page: 0, done: false, data: Vec::new(), history: Ghost(Seq::empty()) }
    }

    /// The first page of the next group to read, or `None` when reading is over.
    pub fn next_group(&self) -> (r: Option<u8>)
        ensures
            r == self.pending(),
            self.wf() ==> r == pending_after(self.answers()),
    {
        if self.done || self.next_page >= NTAG_PAGE_COUNT {
            None
        } else {
            Some(self.next_page)
        }
    }

    /// Records the outcome of reading the pending group: its bytes, or `None`
    /// where the read failed, which ends the reading.
    pub fn record(&mut self, group: Option<Vec<u8>>)
        requires
            old(self).wf(),
            old(self).pending() is Some,
        ensures
            final(self).wf(),
            final(self).bytes_spec() == collected(final(self).answers()),
            final(self).pending() == pending_after(final(self).answers()),
            final(self).answers() == old(self).answers().push(crate::frame::opt_view(group)),
            group is None ==> final(self).pending() is None && final(self).bytes_spec()
                == old(self).bytes_spec(),
            group is Some ==> final(self).bytes_spec() == old(self).bytes_spec()
                + group->Some_0@ && final(self).pending() == (if old(self).pending()->Some_0
                + PAGES_PER_READ < NTAG_PAGE_COUNT {
                Some((old(self).pending()->Some_0 + PAGES_PER_READ) as u8)
            } else {
                None
            }),
    {
        assert(!self.done && self.next_page < NTAG_PAGE_COUNT);
        let ghost before = self.history@;
        let ghost answer = crate::frame::opt_view(group);
        proof {
            lemma_collected_push(before, answer);
        }
        match group {
            Some(d) => {
                let mut i: usize = 0;
                let ghost start = self.data@;
                let ghost np = self.next_page;
                while i < d.len()
                    invariant
                        i <= d@.len(),
                        self.next_page == np,
                        np < NTAG_PAGE_COUNT,
                        !self.done,
                        self.history@ == before,
                        self.data@ == start + d@.subrange(0, i as int),
                    decreases d@.len() - i,
                {
                    self.data.push(d[i]);
                    i = i + 1;
                    assert(self.data@ =~= start + d@.subrange(0, i as int));
                }
                assert(d@.subrange(0, d@.len() as int) =~= d@);
                self.next_page = self.next_page + PAGES_PER_READ;
            },
            None => {
                self.done = true;
            },
        }
        self.history = Ghost(before.push(answer));
        proof {
            if answer is Some {
                if has_failure(before.push(answer)) {
                    let k = choose|k: int|
                        0 <= k < before.push(answer).len() && before.push(answer)[k] is None;
                    assert(before[k] is None);
                }
            } else {
                assert(before.push(answer)[before.len() as int] is None);
            }
        }
    }

    /// The bytes collected.
    pub fn bytes(&self) -> (r: &Vec<u8>)
        ensures
            r@ == self.bytes_spec(),
    {
        &self.data
    }
}

proof fn lemma_collected_push(groups: Seq<Option<Seq<u8>>>, a: Option<Seq<u8>>)
    ensures
        !has_failure(groups) && a is Some ==> collected(groups.push(a)) == collected(groups)
            + a->Some_0,
        has_failure(groups) || a is None ==> collected(groups.push(a)) == collected(groups),
    decreases groups.len(),
{
    let g = groups.push(a);
    if groups.len() == 0 {
        assert(g.drop_first() =~= Seq::<Option<Seq<u8>>>::empty());
        assert(g[0] == a);
        assert(collected(groups) == Seq::<u8>::empty());
        assert(!has_failure(groups));
        if a is Some {
            assert(collected(g) == a->Some_0 + collected(g.drop_first()));
            assert(a->Some_0 + Seq::<u8>::empty() =~= a->Some_0);
            assert(Seq::<u8>::empty() + a->Some_0 =~= a->Some_0);
        }
    } else {
        let rest = groups.drop_first();
        assert(g.drop_first() =~= rest.push(a));
        assert(g[0] == groups[0]);
        lemma_collected_push(rest, a);
        if has_failure(rest) {
            let k = choose|k: int| 0 <= k < rest.len() && rest[k] is None;
            assert(groups[k + 1] is None);
        }
        match groups[0] {
            Some(d) => {
                if has_failure(groups) {
                    let k = choose|k: int| 0 <= k < groups.len() && groups[k] is None;
                    assert(rest[k - 1] is None);
                }
                assert(collected(g) == d + collected(rest.push(a)));
                assert(collected(groups) == d + collected(rest));
                if !has_failure(groups) && a is Some {
                    assert(d + (collected(rest) + a->Some_0) =~= d + collected(rest)
                        + a->Some_0);
                }
            },
            None => {
                assert(has_failure(groups));
            },
        }
    }
}

/// Reading all pages when group `j` is the first to fail: the groups asked for are
/// those at pages 0, 4, ..., 4j in that order, nothing is asked after the failure,
/// and the bytes kept are those of groups 0 to j - 1, in order.
pub proof fn lemma_read_all_pages_stops(groups: Seq<Option<Seq<u8>>>, j: int)
    requires
        0 <= j < groups.len(),
        j < 12,
        forall|i: int| 0 <= i < j ==> #[trigger] groups[i] is Some,
        groups[j] is None,
    ensures
        forall|i: int|
            0 <= i <= j ==> #[trigger] pending_after(groups.subrange(0, i)) == Some(
                (PAGES_PER_READ * i) as u8,
            ),
        pending_after(groups.subrange(0, j + 1)) is None,
        collected(groups.subrange(0, j + 1)) == collected(groups.subrange(0, j)),
{
    assert forall|i: int| 0 <= i <= j implies #[trigger] pending_after(groups.subrange(0, i))
        == Some((PAGES_PER_READ * i) as u8) by {
        let g = groups.subrange(0, i);
        if has_failure(g) {
            let k = choose|k: int| 0 <= k < g.len() && g[k] is None;
            assert(g[k] == groups[k]);
        }
    }
    let before = groups.subrange(0, j);
    assert(groups.subrange(0, j + 1) =~= before.push(None));
    assert(groups.subrange(0, j + 1)[j] is None);
    lemma_collected_push(before, None);
}

/// Reading stops at the first failed group: whatever later reads would have
/// returned, the bytes collected are those of the groups before it, and nothing
/// at all where the very first read fails.
pub proof fn lemma_stops_at_first_failure(groups: Seq<Option<Seq<u8>>>, k: int)
    requires
        0 <= k < groups.len(),
        groups[k] is None,
    ensures
        collected(groups) == collected(groups.subrange(0, k)),
        k == 0 ==> collected(groups) == Seq::<u8>::empty(),
    decreases k,
{
    if k > 0 {
        lemma_stops_at_first_failure(groups.drop_first(), k - 1);
        assert(groups.subrange(0, k).drop_first() =~= groups.drop_first().subrange(0, k - 1));
    }
}

} // verus!
