use vstd::prelude::*;

verus! {

/// The kind of resource an ARN names.
#[derive(Clone, Copy, Debug, PartialEq, Eq, Structural)]
pub enum ArnType {
    Function,
    Layer,
}

/// A validated ARN: the full text, kept verbatim for lookups, and its kind.
#[derive(Clone, Debug)]
pub struct Arn {
    pub arn: String,
    pub arn_type: ArnType,
}

/// Why a string is not an ARN this library can work with.
#[derive(Clone, Debug)]
pub enum ParseError {
    /// Missing `arn:` prefix, or fewer than seven colon-separated segments.
    MalformedArn,
    /// The resource-type segment names neither `function` nor `layer`; it is carried here.
    UnsupportedResourceType(String),
}

/// The pieces of `s` between colons, left to right, as `str::split(':')` yields them.
pub open spec fn segments(s: Seq<char>) -> Seq<Seq<char>>
    decreases s.len(),
{
    if s.len() == 0 {
        seq![Seq::empty()]
    } else {
        let before = segments(s.drop_last());
        if s.last() == ':' {
            before.push(Seq::empty())
        } else {
            before.update(before.len() - 1, before.last().push(s.last()))
        }
    }
}

pub open spec fn has_arn_prefix(s: Seq<char>) -> bool {
    s.len() >= 4 && s.subrange(0, 4) == seq!['a', 'r', 'n', ':']
}

/// Starts with `arn:` and has at least seven segments.
pub open spec fn well_formed_arn(s: Seq<char>) -> bool {
    has_arn_prefix(s) && segments(s).len() >= 7
}

/// The kind that a resource-type segment names, if any.
pub open spec fn kind_of(seg: Seq<char>) -> Option<ArnType> {
    if seg == "function"@ {
        Some(ArnType::Function)
    } else if seg == "layer"@ {
        Some(ArnType::Layer)
    } else {
        None
    }
}

/// The region segment (the fourth).
pub open spec fn region_of(s: Seq<char>) -> Seq<char> {
    segments(s)[3]
}

impl Arn {
    /// The text starts with `arn:`, has at least seven segments, and its sixth
    /// segment names `arn_type`.
    pub open spec fn wf(&self) -> bool {
        &&& well_formed_arn(self.arn@)
        &&& kind_of(segments(self.arn@)[5]) == Some(self.arn_type)
    }
}

/// What parsing `s` must give: `r` is the outcome of parsing `s`.
pub open spec fn parse_outcome(s: Seq<char>, r: Result<Arn, ParseError>) -> bool {
    if !well_formed_arn(s) {
        r is Err && r->Err_0 is MalformedArn
    } else {
        match kind_of(segments(s)[5]) {
            Some(k) => r is Ok && r->Ok_0.arn@ == s && r->Ok_0.arn_type == k,
            None => {
                &&& r is Err
                &&& r->Err_0 is UnsupportedResourceType
                &&& r->Err_0->UnsupportedResourceType_0@ == segments(s)[5]
            },
        }
    }
}

/// Where segment `k` starts, given the colon positions `c`.
pub open spec fn segment_start(c: Seq<usize>, k: int) -> int {
    if k == 0 {
        0
    } else {
        c[k - 1] + 1
    }
}

/// Where segment `k` ends in a text of `n` characters, given the colon positions `c`.
pub open spec fn segment_end(c: Seq<usize>, n: int, k: int) -> int {
    if k < c.len() {
        c[k] as int
    } else {
        n
    }
}

/// `c` lists the colons of `s`, and so cuts `s` into its segments.
pub open spec fn splits_at(s: Seq<char>, c: Seq<usize>) -> bool {
    &&& segments(s).len() == c.len() + 1
    &&& forall|k: int|
        0 <= k < c.len() ==> segment_start(c, k) <= #[trigger] c[k] && c[k] < s.len()
    &&& forall|k: int|
        0 <= k <= c.len() ==> #[trigger] segments(s)[k] == s.subrange(
            segment_start(c, k),
            segment_end(c, s.len() as int, k),
        )
}

proof fn lemma_splits_colon(s: Seq<char>, c: Seq<usize>, i: usize)
    requires
        0 <= i < s.len(),
        s[i as int] == ':',
        splits_at(s.subrange(0, i as int), c),
    ensures
        splits_at(s.subrange(0, i + 1), c.push(i)),
{
    let pre = s.subrange(0, i as int);
    let cur = s.subrange(0, i + 1);
    let c2 = c.push(i);
    assert(cur.drop_last() =~= pre);
    let old_segs = segments(pre);
    assert(segments(cur) == old_segs.push(Seq::empty()));
    assert forall|k: int| 0 <= k < c2.len() implies segment_start(c2, k) <= #[trigger] c2[k]
        && c2[k] < cur.len() by {
        if k < c.len() {
            assert(c2[k] == c[k]);
            if k > 0 {
                assert(c2[k - 1] == c[k - 1]);
            }
        } else {
            assert(c2[k] == i);
            if k > 0 {
                assert(c2[k - 1] == c[k - 1]);
                assert(segment_start(c, k - 1) <= c[k - 1]);
            }
        }
    }
    assert forall|k: int| 0 <= k <= c2.len() implies #[trigger] segments(cur)[k] == cur.subrange(
        segment_start(c2, k),
        segment_end(c2, cur.len() as int, k),
    ) by {
        if k <= c.len() {
            assert(segments(cur)[k] == old_segs[k]);
            if k < c.len() {
                assert(c2[k] == c[k]);
            } else {
                assert(c2[k] == i);
            }
            if k > 0 {
                assert(c2[k - 1] == c[k - 1]);
            }
            assert(old_segs[k] =~= cur.subrange(
                segment_start(c2, k),
                segment_end(c2, cur.len() as int, k),
            ));
        } else {
            assert(c2[k - 1] == i);
            assert(segments(cur)[k] =~= cur.subrange(
                segment_start(c2, k),
                segment_end(c2, cur.len() as int, k),
            ));
        }
    }
}

proof fn lemma_splits_other(s: Seq<char>, c: Seq<usize>, i: int)
    requires
        0 <= i < s.len(),
        s[i] != ':',
        splits_at(s.subrange(0, i), c),
    ensures
        splits_at(s.subrange(0, i + 1), c),
{
    let pre = s.subrange(0, i);
    let cur = s.subrange(0, i + 1);
    assert(cur.drop_last() =~= pre);
    assert(cur.last() == s[i]);
    let old_segs = segments(pre);
    assert(segments(cur) == old_segs.update(old_segs.len() - 1, old_segs.last().push(s[i])));
    assert forall|k: int| 0 <= k <= c.len() implies #[trigger] segments(cur)[k] == cur.subrange(
        segment_start(c, k),
        segment_end(c, cur.len() as int, k),
    ) by {
        if k < c.len() {
            assert(segments(cur)[k] == old_segs[k]);
            assert(old_segs[k] =~= cur.subrange(
                segment_start(c, k),
                segment_end(c, cur.len() as int, k),
            ));
        } else {
            let st = segment_start(c, k);
            assert(old_segs[k] == pre.subrange(st, i));
            if k > 0 {
                assert(segment_start(c, k - 1) <= c[k - 1]);
            }
            assert(segments(cur)[k] =~= cur.subrange(st, i + 1));
        }
    }
}

/// The positions of the colons in `s`.
fn colon_positions(s: &str) -> (c: Vec<usize>)
    ensures
        splits_at(s@, c@),
{
    let n = s.unicode_len();
    let mut c: Vec<usize> = Vec::new();
    let mut i: usize = 0;
    proof {
        let e = s@.subrange(0, 0);
        assert(e =~= Seq::<char>::empty());
        assert(segments(e) == seq![Seq::<char>::empty()]);
        assert(segments(e)[0] =~= e.subrange(0, 0));
    }
    while i < n
        invariant
            n == s@.len(),
            i <= n,
            splits_at(s@.subrange(0, i as int), c@),
        decreases n - i,
    {
        let ch = s.get_char(i);
        proof {
            if ch == ':' {
                lemma_splits_colon(s@, c@, i);
            } else {
                lemma_splits_other(s@, c@, i as int);
            }
        }
        if ch == ':' {
            c.push(i);
        }
        i = i + 1;
    }
    proof {
        assert(s@.subrange(0, n as int) =~= s@);
    }
    c
}

/// Segment `k` of `s`, cut out by the colon positions `c`.
fn segment_text<'a>(s: &'a str, c: &Vec<usize>, k: usize) -> (r: &'a str)
    requires
        splits_at(s@, c@),
        k <= c@.len(),
    ensures
        r@ == segments(s@)[k as int],
{
    let n = s.unicode_len();
    let start: usize = if k == 0 {
        0
    } else {
        c[k - 1] + 1
    };
    let end: usize = if k < c.len() {
        c[k]
    } else {
        n
    };
    proof {
        if k > 0 {
            assert(segment_start(c@, k - 1) <= c@[k - 1]);
        }
        if k < c@.len() {
            assert(segment_start(c@, k as int) <= c@[k as int]);
        }
    }
    s.substring_char(start, end)
}

/// Whether two texts hold the same characters.
fn same_text(a: &str, b: &str) -> (r: bool)
    ensures
        r == (a@ == b@),
{
    let n = a.unicode_len();
    if n != b.unicode_len() {
        return false;
    }
    let mut i: usize = 0;
    while i < n
        invariant
            n == a@.len(),
            n == b@.len(),
            i <= n,
            forall|j: int| 0 <= j < i ==> a@[j] == b@[j],
        decreases n - i,
    {
        if a.get_char(i) != b.get_char(i) {
            return false;
        }
        i = i + 1;
    }
    proof {
        assert(a@ =~= b@);
    }
    true
}

fn starts_with_arn_prefix(s: &str) -> (r: bool)
    ensures
        r == has_arn_prefix(s@),
{
    if s.unicode_len() < 4 {
        return false;
    }
    let r = s.get_char(0) == 'a' && s.get_char(1) == 'r' && s.get_char(2) == 'n' && s.get_char(3)
        == ':';
    proof {
        if r {
            assert(s@.subrange(0, 4) =~= seq!['a', 'r', 'n', ':']);
        } else {
            let p = seq!['a', 'r', 'n', ':'];
            if s@.subrange(0, 4) == p {
                assert(s@.subrange(0, 4)[0] == p[0]);
                assert(s@.subrange(0, 4)[1] == p[1]);
                assert(s@.subrange(0, 4)[2] == p[2]);
                assert(s@.subrange(0, 4)[3] == p[3]);
            }
        }
    }
    r
}

fn kind_of_segment(seg: &str) -> (r: Option<ArnType>)
    ensures
        r == kind_of(seg@),
{
    if same_text(seg, "function") {
        Some(ArnType::Function)
    } else if same_text(seg, "layer") {
        Some(ArnType::Layer)
    } else {
        None
    }
}

/// Validates and classifies `arn`: it must start with `arn:`, have at least seven
/// colon-separated segments, and name `function` or `layer` in its sixth segment.
pub fn parse_arn(arn: &str) -> (r: Result<Arn, ParseError>)
    ensures
        parse_outcome(arn@, r),
        !has_arn_prefix(arn@) ==> r is Err && r->Err_0 is MalformedArn,
        segments(arn@).len() < 7 ==> r is Err && r->Err_0 is MalformedArn,
        r is Ok ==> r->Ok_0.wf(),
{
    let c = colon_positions(arn);
    if starts_with_arn_prefix(arn) && c.len() >= 6 {
        let seg = segment_text(arn, &c, 5);
        match kind_of_segment(seg) {
            Some(k) => Ok(Arn { arn: arn.to_owned(), arn_type: k }),
            None => Err(ParseError::UnsupportedResourceType(seg.to_owned())),
        }
    } else {
        Err(ParseError::MalformedArn)
    }
}

/// The kind named by the sixth segment of `arn`: `function` or `layer`, else
/// `UnsupportedResourceType` carrying that segment.
pub fn function_or_layer_arn(arn: &str) -> (r: Result<ArnType, ParseError>)
    requires
        segments(arn@).len() >= 6,
    ensures
        match kind_of(segments(arn@)[5]) {
            Some(k) => r == Ok::<ArnType, ParseError>(k),
            None => r is Err && r->Err_0 is UnsupportedResourceType
                && r->Err_0->UnsupportedResourceType_0@ == segments(arn@)[5],
        },
{
    let c = colon_positions(arn);
    let seg = segment_text(arn, &c, 5);
    match kind_of_segment(seg) {
        Some(k) => Ok(k),
        None => Err(ParseError::UnsupportedResourceType(seg.to_owned())),
    }
}

/// The region segment (the fourth) of `arn`.
pub fn get_region(arn: &str) -> (r: String)
    requires
        segments(arn@).len() >= 4,
    ensures
        r@ == region_of(arn@),
{
    let c = colon_positions(arn);
    segment_text(arn, &c, 3).to_owned()
}

/// Parsing is deterministic: any two outcomes of parsing the same text agree,
/// in the ARN text and kind or in the error and the segment it carries.
pub proof fn parse_twice_agrees(
    s: Seq<char>,
    r1: Result<Arn, ParseError>,
    r2: Result<Arn, ParseError>,
)
    requires
        parse_outcome(s, r1),
        parse_outcome(s, r2),
    ensures
        r1 is Ok <==> r2 is Ok,
        r1 is Ok ==> r1->Ok_0.arn@ == r2->Ok_0.arn@ && r1->Ok_0.arn_type == r2->Ok_0.arn_type,
        r1 is Err ==> (r1->Err_0 is MalformedArn <==> r2->Err_0 is MalformedArn),
        r1 is Err && r1->Err_0 is UnsupportedResourceType ==> r1->Err_0->UnsupportedResourceType_0@
            == r2->Err_0->UnsupportedResourceType_0@,
{
}

} // verus!
