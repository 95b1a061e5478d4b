//! Turning the list of keyboard event handlers that the system reports into
//! device paths, and picking the one device to read.
use vstd::prelude::*;

verus! {

/// Line separator of the handler listing.
pub const NEWLINE: u8 = 10;

/// Whether byte `b` is ASCII whitespace: space, tab, line feed, form feed or
/// carriage return.
pub open spec fn is_space(b: u8) -> bool {
    b == 32 || b == 9 || b == 10 || b == 12 || b == 13
}

/// `s` without its leading whitespace.
pub open spec fn trim_start(s: Seq<u8>) -> Seq<u8>
    decreases s.len(),
{
    if s.len() > 0 && is_space(s[0]) {
        trim_start(s.drop_first())
    } else {
        s
    }
}

/// `s` without its trailing whitespace.
pub open spec fn trim_end(s: Seq<u8>) -> Seq<u8>
    decreases s.len(),
{
    if s.len() > 0 && is_space(s.last()) {
        trim_end(s.drop_last())
    } else {
        s
    }
}

/// `s` without leading and trailing whitespace.
pub open spec fn trim(s: Seq<u8>) -> Seq<u8> {
    trim_end(trim_start(s))
}

/// The pieces of `s` between line feeds, in order. There is always one more
/// piece than there are line feeds; an empty `s` is one empty piece.
pub open spec fn lines_of(s: Seq<u8>) -> Seq<Seq<u8>>
    decreases s.len(),
{
    if s.len() == 0 {
        seq![Seq::empty()]
    } else {
        let p = lines_of(s.drop_last());
        if s.last() == NEWLINE {
            p.push(Seq::empty())
        } else {
            p.update(p.len() - 1, p.last().push(s.last()))
        }
    }
}

/// The directory that holds the event devices, `/dev/input/`.
pub open spec fn device_dir() -> Seq<u8> {
    seq![47u8, 100, 101, 118, 47, 105, 110, 112, 117, 116, 47]
}

/// The device paths that `listing` names: one per line of the listing with
/// surrounding whitespace removed, each line a device under `device_dir()`.
pub open spec fn device_paths_of(listing: Seq<u8>) -> Seq<Seq<u8>> {
    lines_of(trim(listing)).map_values(|l: Seq<u8>| device_dir() + l)
}

proof fn lemma_lines_nonempty(s: Seq<u8>)
    ensures
        lines_of(s).len() >= 1,
    decreases s.len(),
{
    if s.len() > 0 {
        lemma_lines_nonempty(s.drop_last());
    }
}

fn is_space_byte(b: u8) -> (r: bool)
    ensures
        r == is_space(b),
{
    b == 32 || b == 9 || b == 10 || b == 12 || b == 13
}

fn new_device_path() -> (r: Vec<u8>)
    ensures
        r@ == device_dir(),
{
    let r = vec![47u8, 100, 101, 118, 47, 105, 110, 112, 117, 116, 47];
    assert(r@ =~= device_dir());
    r
}

/// The device paths named by `listing`, the output of a search for keyboard
/// event handlers with one handler name (`event3`) per line.
pub fn device_paths(listing: &[u8]) -> (r: Vec<Vec<u8>>)
    ensures
        r@.len() == device_paths_of(listing@).len(),
        forall|i: int| 0 <= i < r@.len() ==> #[trigger] r@[i]@ == device_paths_of(listing@)[i],
{
    let n = listing.len();
    let mut start: usize = 0;
    assert(listing@.subrange(0, n as int) =~= listing@);
    while start < n && is_space_byte(listing[start])
        invariant
            start <= n,
            n == listing@.len(),
            trim_start(listing@) == trim_start(listing@.subrange(start as int, n as int)),
        decreases n - start,
    {
        assert(listing@.subrange(start as int, n as int).drop_first() =~= listing@.subrange(
            start + 1,
            n as int,
        ));
        start = start + 1;
    }
    assert(trim_start(listing@) == listing@.subrange(start as int, n as int));
    let mut end: usize = n;
    while end > start && is_space_byte(listing[end - 1])
        invariant
            start <= end <= n,
            n == listing@.len(),
            trim(listing@) == trim_end(listing@.subrange(start as int, end as int)),
        decreases end,
    {
        assert(listing@.subrange(start as int, end as int).drop_last() =~= listing@.subrange(
            start as int,
            end - 1,
        ));
        end = end - 1;
    }
    let ghost body = listing@.subrange(start as int, end as int);
    assert(trim(listing@) == body);
    let mut paths: Vec<Vec<u8>> = Vec::new();
    let mut cur = new_device_path();
    let mut i: usize = start;
    while i < end
        invariant
            start <= i <= end <= n,
            n == listing@.len(),
            body == listing@.subrange(start as int, end as int),
            paths@.len() + 1 == lines_of(listing@.subrange(start as int, i as int)).len(),
            forall|j: int|
                0 <= j < paths@.len() ==> #[trigger] paths@[j]@ == device_dir() + lines_of(
                    listing@.subrange(start as int, i as int),
                )[j],
            cur@ == device_dir() + lines_of(listing@.subrange(start as int, i as int)).last(),
        decreases end - i,
    {
        let ghost prev = listing@.subrange(start as int, i as int);
        let ghost next = listing@.subrange(start as int, i + 1);
        assert(next.drop_last() =~= prev);
        proof {
            lemma_lines_nonempty(prev);
        }
        let b = listing[i];
        if b == NEWLINE {
            paths.push(cur);
            cur = new_device_path();
            assert(device_dir() + Seq::<u8>::empty() =~= device_dir());
        } else {
            cur.push(b);
            assert(device_dir() + lines_of(prev).last().push(b) =~= (device_dir() + lines_of(
                prev,
            ).last()).push(b));
        }
        i = i + 1;
    }
    assert(listing@.subrange(start as int, end as int) == body);
    paths.push(cur);
    proof {
        lemma_lines_nonempty(body);
    }
    assert forall|j: int| 0 <= j < paths@.len() implies #[trigger] paths@[j]@
        == device_paths_of(listing@)[j] by {
        assert(device_paths_of(listing@)[j] == device_dir() + lines_of(body)[j]);
    }
    paths
}

/// The one device among `paths`, or `None` where there is not exactly one
/// to choose.
pub fn get_default_device(paths: Vec<Vec<u8>>) -> (r: Option<Vec<u8>>)
    ensures
        r.is_some() == (paths@.len() == 1),
        r.is_some() ==> r.unwrap()@ == paths@[0]@,
{
    let mut paths = paths;
    if paths.len() == 1 {
        Some(paths.swap_remove(0))
    } else {
        None
    }
}

} // verus!
