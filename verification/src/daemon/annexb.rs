//! H.264 byte streams: start codes, parameter sets, and the rewriting of headers.
//!
//! A stream in Annex B form is a run of NAL units, each behind a start code of three
//! (`00 00 01`) or four (`00 00 00 01`) bytes. The low five bits of a unit's first byte are its
//! type: 1 and 5 carry picture slices (5 those of an instantaneous refresh), 7 is a sequence
//! parameter set, 8 a picture parameter set.

use crate::bytes::{append, be32, copy, read_be32};
use vstd::prelude::*;
use vstd::slice::slice_subrange;

verus! {

/// The four-byte start code.
pub open spec fn start_code() -> Seq<u8> {
    seq![0u8, 0u8, 0u8, 1u8]
}

/// A four-byte start code stands at `i`.
pub open spec fn start4_at(d: Seq<u8>, i: int) -> bool {
    0 <= i && i + 4 <= d.len() && d[i] == 0 && d[i + 1] == 0 && d[i + 2] == 0 && d[i + 3] == 1
}

/// A three-byte start code stands at `i`.
pub open spec fn start3_at(d: Seq<u8>, i: int) -> bool {
    0 <= i && i + 3 <= d.len() && d[i] == 0 && d[i + 1] == 0 && d[i + 2] == 1
}

/// The length of the start code at `i`, or 0 where there is none.
pub open spec fn start_len_at(d: Seq<u8>, i: int) -> int {
    if start4_at(d, i) {
        4
    } else if start3_at(d, i) {
        3
    } else {
        0
    }
}

/// The type of the NAL unit that begins with `b`.
pub open spec fn nal_type(b: u8) -> u8 {
    b & 0x1F
}

/// Some start code stands somewhere in `d`.
pub open spec fn has_start_code(d: Seq<u8>) -> bool {
    exists|i: int| start_len_at(d, i) > 0
}

fn start_len(d: &[u8], i: usize) -> (r: usize)
    requires
        i <= d@.len(),
    ensures
        r == start_len_at(d@, i as int),
{
    let left: usize = d.len() - i;
    if left >= 4 && d[i] == 0 && d[i + 1] == 0 && d[i + 2] == 0 && d[i + 3] == 1 {
        4
    } else if left >= 3 && d[i] == 0 && d[i + 1] == 0 && d[i + 2] == 1 {
        3
    } else {
        0
    }
}

/// The units of a stream whose units are prefixed by their length in four bytes, each behind a
/// start code instead. Reading stops at the first length that runs past the end, and, with
/// `stop_at_empty`, at the first length of 0.
pub open spec fn avcc_units(d: Seq<u8>, stop_at_empty: bool) -> Seq<u8>
    decreases d.len(),
{
    if d.len() < 4 {
        Seq::empty()
    } else {
        let n = be32(d[0], d[1], d[2], d[3]);
        if 4 + n > d.len() || (stop_at_empty && n == 0) {
            Seq::empty()
        } else {
            start_code() + d.subrange(4, 4 + n as int) + avcc_units(
                d.subrange(4 + n as int, d.len() as int),
                stop_at_empty,
            )
        }
    }
}

fn convert_avcc(d: &[u8], stop_at_empty: bool) -> (out: Vec<u8>)
    ensures
        out@ == avcc_units(d@, stop_at_empty),
{
    let mut out: Vec<u8> = Vec::new();
    let mut i: usize = 0;
    assert(d@.subrange(0, d@.len() as int) =~= d@);
    while d.len() - i >= 4
        invariant_except_break
            i <= d@.len(),
            out@ + avcc_units(d@.subrange(i as int, d@.len() as int), stop_at_empty) == avcc_units(
                d@,
                stop_at_empty,
            ),
        ensures
            out@ == avcc_units(d@, stop_at_empty),
        decreases d@.len() - i,
    {
        let ghost rest = d@.subrange(i as int, d@.len() as int);
        let len: usize = read_be32(d, i) as usize;
        i = i + 4;
        if len > d.len() - i || (stop_at_empty && len == 0) {
            assert(out@ + Seq::<u8>::empty() =~= out@);
            break;
        }
        let ghost before = out@;
        append(&mut out, &[0u8, 0u8, 0u8, 1u8]);
        append(&mut out, slice_subrange(d, i, i + len));
        proof {
            assert(rest.subrange(4, 4 + len as int) =~= d@.subrange(i as int, i + len));
            assert(rest.subrange(4 + len as int, rest.len() as int) =~= d@.subrange(
                i + len,
                d@.len() as int,
            ));
            assert(out@ =~= before + (start_code() + d@.subrange(i as int, i + len)));
            let tail = avcc_units(d@.subrange(i + len, d@.len() as int), stop_at_empty);
            assert(out@ + tail =~= before + (start_code() + d@.subrange(i as int, i + len) + tail));
        }
        i = i + len;
    }
    out
}

/// What `ensure_annexb` makes of a stream.
pub open spec fn annexb_of(d: Seq<u8>) -> Seq<u8> {
    if has_start_code(d) {
        d
    } else {
        avcc_units(d, false)
    }
}

/// Brings a stream into Annex B form. One that holds a start code anywhere is taken to be in
/// that form already; any other is read as length-prefixed units.
pub fn ensure_annexb(data: &[u8]) -> (r: Vec<u8>)
    ensures
        r@ == annexb_of(data@),
{
    let mut i: usize = 0;
    while i < data.len()
        invariant
            i <= data@.len(),
            forall|j: int| 0 <= j < i ==> start_len_at(data@, j) == 0,
        decreases data@.len() - i,
    {
        if start_len(data, i) > 0 {
            return copy(data);
        }
        i = i + 1;
    }
    convert_avcc(data, false)
}

/// A stream brought into Annex B form stays as it is when it is brought into that form again.
pub proof fn ensure_annexb_is_idempotent(d: Seq<u8>)
    ensures
        annexb_of(annexb_of(d)) == annexb_of(d),
{
    let a = annexb_of(d);
    if !has_start_code(d) && a.len() > 0 {
        assert(start4_at(a, 0));
        assert(start_len_at(a, 0) == 4);
    }
}

/// A stream that begins with a start code, in at least four bytes.
pub open spec fn begins_annexb(d: Seq<u8>) -> bool {
    d.len() >= 4 && start_len_at(d, 0) > 0
}

/// Says whether the stream begins with a start code.
pub fn has_annexb(d: &[u8]) -> (r: bool)
    ensures
        r == begins_annexb(d@),
{
    d.len() >= 4 && start_len(d, 0) > 0
}

/// What `normalize_h264` makes of a stream.
pub open spec fn normalized(d: Seq<u8>) -> Seq<u8> {
    if d.len() == 0 || begins_annexb(d) {
        d
    } else if avcc_units(d, true).len() == 0 {
        start_code() + d
    } else {
        avcc_units(d, true)
    }
}

/// Brings one encoded picture into Annex B form: as it is where it begins with a start code,
/// else read as length-prefixed units, else, where not even one unit can be read, as a single
/// unit.
pub fn normalize_h264(d: &[u8]) -> (r: Vec<u8>)
    ensures
        r@ == normalized(d@),
{
    if d.len() == 0 || has_annexb(d) {
        return copy(d);
    }
    let mut out = convert_avcc(d, true);
    if out.len() == 0 {
        append(&mut out, &[0u8, 0u8, 0u8, 1u8]);
        append(&mut out, d);
        assert(out@ =~= start_code() + d@);
    }
    out
}

/// A normalised picture begins with a start code, unless there was nothing to normalise, and
/// normalising it again changes nothing.
pub proof fn normalize_h264_gives_annexb(d: Seq<u8>)
    ensures
        d.len() > 0 ==> begins_annexb(normalized(d)),
        normalized(normalized(d)) == normalized(d),
{
    let n = normalized(d);
    if d.len() > 0 && !begins_annexb(d) {
        assert(start4_at(n, 0));
        assert(start_len_at(n, 0) == 4);
    }
}

/// The four bytes of a length, most significant first.
pub open spec fn length_bytes(n: nat) -> Seq<u8> {
    seq![
        (n / 0x1000000 % 256) as u8,
        (n / 0x10000 % 256) as u8,
        (n / 0x100 % 256) as u8,
        (n % 256) as u8,
    ]
}

/// Units, each behind its length.
pub open spec fn with_lengths(units: Seq<Seq<u8>>) -> Seq<u8>
    decreases units.len(),
{
    if units.len() == 0 {
        Seq::empty()
    } else {
        length_bytes(units[0].len()) + units[0] + with_lengths(units.drop_first())
    }
}

/// Units, each behind a start code.
pub open spec fn with_start_codes(units: Seq<Seq<u8>>) -> Seq<u8>
    decreases units.len(),
{
    if units.len() == 0 {
        Seq::empty()
    } else {
        start_code() + units[0] + with_start_codes(units.drop_first())
    }
}

/// The length of every unit fits in four bytes, and no unit is empty where empty ones are not
/// read.
pub open spec fn units_fit(units: Seq<Seq<u8>>, stop_at_empty: bool) -> bool {
    forall|i: int|
        0 <= i < units.len() ==> (#[trigger] units[i]).len() < 0x1_0000_0000 && (stop_at_empty
            ==> units[i].len() > 0)
}

proof fn lengths_are_replaced(units: Seq<Seq<u8>>, stop_at_empty: bool)
    requires
        units_fit(units, stop_at_empty),
    ensures
        avcc_units(with_lengths(units), stop_at_empty) == with_start_codes(units),
    decreases units.len(),
{
    if units.len() > 0 {
        let d = with_lengths(units);
        let rest = units.drop_first();
        let n = units[0].len();
        let head = length_bytes(n);
        assert forall|i: int| 0 <= i < rest.len() implies (#[trigger] rest[i]).len()
            < 0x1_0000_0000 && (stop_at_empty ==> rest[i].len() > 0) by {
            assert(rest[i] == units[i + 1]);
        }
        lengths_are_replaced(rest, stop_at_empty);
        assert(d[0] == head[0] && d[1] == head[1] && d[2] == head[2] && d[3] == head[3]);
        assert(be32(head[0], head[1], head[2], head[3]) == n);
        assert(d.subrange(4, 4 + n as int) =~= units[0]);
        assert(d.subrange(4 + n as int, d.len() as int) =~= with_lengths(rest));
    }
}

/// Units that stand behind their lengths come out behind start codes, all of them, in order and
/// unchanged, as long as the bytes do not happen to hold a start code before.
pub proof fn ensure_annexb_replaces_lengths(units: Seq<Seq<u8>>)
    requires
        units_fit(units, false),
        !has_start_code(with_lengths(units)),
    ensures
        annexb_of(with_lengths(units)) == with_start_codes(units),
{
    lengths_are_replaced(units, false);
}

/// The units of a picture that stand behind their lengths come out behind start codes, all of
/// them, in order and unchanged, as long as the first length does not look like a start code.
pub proof fn normalize_h264_replaces_lengths(units: Seq<Seq<u8>>)
    requires
        units_fit(units, true),
        !begins_annexb(with_lengths(units)),
    ensures
        normalized(with_lengths(units)) == with_start_codes(units),
{
    lengths_are_replaced(units, true);
    if units.len() > 0 {
        assert(with_start_codes(units).len() > 0);
    }
}

/// Where the unit that begins at `from` ends: at the next start code that has a byte behind
/// its first three, or at the end of the stream.
pub open spec fn unit_end(d: Seq<u8>, from: int) -> int
    decreases d.len() - from,
{
    if from + 3 >= d.len() {
        d.len() as int
    } else if start_len_at(d, from) > 0 {
        from
    } else {
        unit_end(d, from + 1)
    }
}

/// The non-empty NAL units of `d` from `i` on, without their start codes.
pub open spec fn nal_units(d: Seq<u8>, i: int) -> Seq<Seq<u8>>
    decreases d.len() - i,
{
    if i + 4 > d.len() {
        Seq::empty()
    } else if start_len_at(d, i) > 0 {
        let start = i + start_len_at(d, i);
        let end = unit_end(d, start);
        if i < end <= d.len() {
            let rest = nal_units(d, end);
            if start < end {
                seq![d.subrange(start, end)] + rest
            } else {
                rest
            }
        } else {
            Seq::empty()
        }
    } else {
        nal_units(d, i + 1)
    }
}

/// The last of `units` that has the given type, or nothing.
pub open spec fn last_of_type(units: Seq<Seq<u8>>, t: u8) -> Seq<u8>
    decreases units.len(),
{
    if units.len() == 0 {
        Seq::empty()
    } else if nal_type(units.last()[0]) == t {
        units.last()
    } else {
        last_of_type(units.drop_last(), t)
    }
}

proof fn unit_end_in_range(d: Seq<u8>, from: int)
    requires
        0 <= from <= d.len(),
    ensures
        from <= unit_end(d, from) <= d.len(),
    decreases d.len() - from,
{
    if from + 3 < d.len() && start_len_at(d, from) == 0 {
        unit_end_in_range(d, from + 1);
    }
}

fn find_unit_end(d: &[u8], from: usize) -> (end: usize)
    requires
        from <= d@.len(),
    ensures
        end == unit_end(d@, from as int),
        from <= end <= d@.len(),
{
    let mut j: usize = from;
    while d.len() - j > 3
        invariant
            from <= j <= d@.len(),
            unit_end(d@, j as int) == unit_end(d@, from as int),
        decreases d@.len() - j,
    {
        if start_len(d, j) > 0 {
            return j;
        }
        j = j + 1;
    }
    d.len()
}

/// The sequence and picture parameter sets of an Annex B stream: of each kind the last one,
/// without its start code, or nothing where there is none.
pub fn extract_sps_pps_annexb(data: &[u8]) -> (r: (Vec<u8>, Vec<u8>))
    ensures
        r.0@ == last_of_type(nal_units(data@, 0), 7),
        r.1@ == last_of_type(nal_units(data@, 0), 8),
{
    let mut sps: Vec<u8> = Vec::new();
    let mut pps: Vec<u8> = Vec::new();
    let mut i: usize = 0;
    let ghost mut done: Seq<Seq<u8>> = Seq::empty();
    assert(done + nal_units(data@, 0) =~= nal_units(data@, 0));
    while data.len() - i >= 4
        invariant
            i <= data@.len(),
            done + nal_units(data@, i as int) == nal_units(data@, 0),
            sps@ == last_of_type(done, 7),
            pps@ == last_of_type(done, 8),
        decreases data@.len() - i,
    {
        let offset: usize = start_len(data, i);
        if offset > 0 {
            let start: usize = i + offset;
            let end: usize = find_unit_end(data, start);
            if start < end {
                let unit = slice_subrange(data, start, end);
                let ghost before = done;
                proof {
                    done = before.push(unit@);
                    assert(done.drop_last() =~= before);
                    assert(before + (seq![unit@] + nal_units(data@, end as int)) =~= done
                        + nal_units(data@, end as int));
                }
                if unit[0] & 0x1F == 7 {
                    sps = copy(unit);
                } else if unit[0] & 0x1F == 8 {
                    pps = copy(unit);
                }
            }
            i = end;
        } else {
            i = i + 1;
        }
    }
    assert(done + Seq::<Seq<u8>>::empty() =~= done);
    (sps, pps)
}

/// The H.264 level that goes with a picture width and a frame rate.
pub open spec fn level_for(width: u32, fps: u32) -> u8 {
    if width >= 3840 || fps > 60 {
        0x33
    } else if width > 1920 || fps >= 60 {
        0x2A
    } else {
        0x28
    }
}

/// Picks the H.264 level for a picture width and a frame rate.
pub fn level_idc(width: u32, fps: u32) -> (r: u8)
    ensures
        r == level_for(width, fps),
{
    if width >= 3840 || fps > 60 {
        0x33
    } else if width > 1920 || fps >= 60 {
        0x2A
    } else {
        0x28
    }
}

/// A sequence parameter set stands at `i`, behind its start code and with its three profile
/// and level bytes.
pub open spec fn sps_at(d: Seq<u8>, i: int) -> bool {
    let n = start_len_at(d, i);
    n > 0 && i + n + 3 < d.len() && nal_type(d[i + n]) == 7
}

/// Where the first sequence parameter set of `d` from `i` on stands, or the end of `d` where
/// there is none.
pub open spec fn sps_from(d: Seq<u8>, i: int) -> int
    decreases d.len() - i,
{
    if i >= d.len() {
        d.len() as int
    } else if sps_at(d, i) {
        i
    } else {
        sps_from(d, i + 1)
    }
}

/// `d` with the constrained baseline profile and the given level written into the sequence
/// parameter set at `i`.
pub open spec fn with_baseline(d: Seq<u8>, i: int, level: u8) -> Seq<u8> {
    let p = i + start_len_at(d, i);
    d.update(p + 1, 0x42).update(p + 2, 0xE0).update(p + 3, level)
}

/// `d` with its first sequence parameter set, if any, rewritten to the constrained baseline
/// profile and the given level.
pub open spec fn baselined(d: Seq<u8>, level: u8) -> Seq<u8> {
    let i = sps_from(d, 0);
    if i < d.len() {
        with_baseline(d, i, level)
    } else {
        d
    }
}

proof fn sps_from_is_first(d: Seq<u8>, i: int)
    requires
        0 <= i <= d.len(),
    ensures
        i <= sps_from(d, i) <= d.len(),
        sps_from(d, i) < d.len() ==> sps_at(d, sps_from(d, i)),
        forall|j: int| i <= j < sps_from(d, i) ==> !sps_at(d, j),
    decreases d.len() - i,
{
    if i < d.len() && !sps_at(d, i) {
        sps_from_is_first(d, i + 1);
    }
}

proof fn sps_from_here(d: Seq<u8>, i: int, at: int)
    requires
        0 <= i <= at <= d.len(),
        at < d.len() ==> sps_at(d, at),
        forall|j: int| i <= j < at ==> !sps_at(d, j),
    ensures
        sps_from(d, i) == at,
    decreases at - i,
{
    if i < at {
        sps_from_here(d, i + 1, at);
    }
}

/// Rewrites the first sequence parameter set to the constrained baseline profile, at the level
/// that the picture width and the frame rate ask for.
pub fn spoof_sps_to_baseline(data: &mut Vec<u8>, width: u32, fps: u32)
    ensures
        final(data)@ == baselined(old(data)@, level_for(width, fps)),
{
    let level: u8 = level_idc(width, fps);
    let ghost before = data@;
    let mut i: usize = 0;
    while data.len() - i >= 3
        invariant
            before == old(data)@,
            data@ == before,
            i <= data@.len(),
            forall|j: int| 0 <= j < i ==> !sps_at(before, j),
            level == level_for(width, fps),
        decreases data@.len() - i,
    {
        let n: usize = start_len(data.as_slice(), i);
        if n > 0 && data.len() - i > n + 3 && data[i + n] & 0x1F == 7 {
            data.set(i + n + 1, 0x42);
            data.set(i + n + 2, 0xE0);
            data.set(i + n + 3, level);
            proof {
                sps_from_here(before, 0, i as int);
                assert(data@ =~= with_baseline(before, i as int, level));
            }
            return;
        }
        i = i + 1;
    }
    proof {
        sps_from_here(before, 0, before.len() as int);
    }
}

/// A rewritten header announces the constrained baseline profile and the given level in its
/// first sequence parameter set, which stands where it stood before.
pub proof fn spoof_keeps_place(d: Seq<u8>, level: u8)
    ensures
        baselined(d, level).len() == d.len(),
        sps_from(baselined(d, level), 0) == sps_from(d, 0),
        sps_from(d, 0) < d.len() ==> ({
            let after = baselined(d, level);
            let p = sps_from(d, 0) + start_len_at(d, sps_from(d, 0));
            &&& after[p + 1] == 0x42
            &&& after[p + 2] == 0xE0
            &&& after[p + 3] == level
        }),
{
    sps_from_is_first(d, 0);
    let i = sps_from(d, 0);
    let after = baselined(d, level);
    if i < d.len() {
        let n = start_len_at(d, i);
        assert(start_len_at(after, i) == n);
        assert forall|j: int| 0 <= j < i implies !sps_at(after, j) by {
            assert(!sps_at(d, j));
            assert(forall|k: int| 0 <= k <= i + 3 && k < d.len() ==> after[k] == d[k]);
            assert(start_len_at(after, j) == start_len_at(d, j));
        }
        sps_from_here(after, 0, i);
    }
}

/// Rewriting a header that was rewritten changes nothing more.
pub proof fn spoof_is_idempotent(d: Seq<u8>, level: u8)
    ensures
        baselined(baselined(d, level), level) == baselined(d, level),
{
    spoof_keeps_place(d, level);
    sps_from_is_first(d, 0);
    let once = baselined(d, level);
    let i = sps_from(d, 0);
    if i < d.len() {
        assert(start_len_at(once, i) == start_len_at(d, i));
        assert(with_baseline(once, i, level) =~= once);
    }
}

/// An instantaneous refresh slice stands behind the start code at `i`.
pub open spec fn idr_at(d: Seq<u8>, i: int) -> bool {
    let n = start_len_at(d, i);
    n > 0 && nal_type(d[i + n]) == 5
}

/// The stream holds an instantaneous refresh slice. The last four bytes begin none.
pub open spec fn has_idr(d: Seq<u8>) -> bool {
    exists|i: int| 0 <= i < d.len() - 4 && idr_at(d, i)
}

/// Says whether a stream holds an instantaneous refresh slice.
pub fn contains_idr(data: &[u8]) -> (r: bool)
    ensures
        r == has_idr(data@),
{
    let mut i: usize = 0;
    while data.len() - i > 4
        invariant
            i <= data@.len(),
            forall|j: int| 0 <= j < i ==> !idr_at(data@, j),
        decreases data@.len() - i,
    {
        let n: usize = start_len(data, i);
        if n > 0 && data[i + n] & 0x1F == 5 {
            assert(idr_at(data@, i as int));
            return true;
        }
        i = i + 1;
    }
    false
}

/// A picture slice stands behind the start code at `i`.
pub open spec fn slice_at(d: Seq<u8>, i: int) -> bool {
    let n = start_len_at(d, i);
    n > 0 && i + n < d.len() && (nal_type(d[i + n]) == 1 || nal_type(d[i + n]) == 5)
}

/// Where the first picture slice of `d` from `i` on stands, start code included, or the end of
/// `d` where there is none.
pub open spec fn slice_from(d: Seq<u8>, i: int) -> int
    decreases d.len() - i,
{
    if i >= d.len() {
        d.len() as int
    } else if slice_at(d, i) {
        i
    } else {
        slice_from(d, i + 1)
    }
}

/// What is left of `d` once everything before its first picture slice is cut off, or all of `d`
/// where it has no slice.
pub open spec fn stripped(d: Seq<u8>) -> Seq<u8> {
    let i = slice_from(d, 0);
    if i < d.len() {
        d.subrange(i, d.len() as int)
    } else {
        d
    }
}

proof fn slice_from_here(d: Seq<u8>, i: int, at: int)
    requires
        0 <= i <= at <= d.len(),
        at < d.len() ==> slice_at(d, at),
        forall|j: int| i <= j < at ==> !slice_at(d, j),
    ensures
        slice_from(d, i) == at,
    decreases at - i,
{
    if i < at {
        slice_from_here(d, i + 1, at);
    }
}

proof fn slice_from_is_first(d: Seq<u8>, i: int)
    requires
        0 <= i <= d.len(),
    ensures
        i <= slice_from(d, i) <= d.len(),
        slice_from(d, i) < d.len() ==> slice_at(d, slice_from(d, i)),
    decreases d.len() - i,
{
    if i < d.len() && !slice_at(d, i) {
        slice_from_is_first(d, i + 1);
    }
}

/// Cuts off what precedes the first picture slice.
pub fn strip_sps_pps(data: &[u8]) -> (r: &[u8])
    ensures
        r@ == stripped(data@),
{
    let mut i: usize = 0;
    while data.len() - i >= 3
        invariant
            i <= data@.len(),
            forall|j: int| 0 <= j < i ==> !slice_at(data@, j),
        decreases data@.len() - i,
    {
        let n: usize = start_len(data, i);
        if n > 0 {
            if i + n < data.len() && (data[i + n] & 0x1F == 1 || data[i + n] & 0x1F == 5) {
                proof {
                    slice_from_here(data@, 0, i as int);
                }
                return slice_subrange(data, i, data.len());
            }
            assert forall|j: int| 0 <= j < i + n implies !slice_at(data@, j) by {
                if j > i {
                    assert(start_len_at(data@, j) > 0 ==> j == i + 1 && n == 4);
                }
            }
            i = i + n;
        } else {
            i = i + 1;
        }
    }
    proof {
        slice_from_here(data@, 0, data@.len() as int);
    }
    data
}

/// A stream that holds a picture slice begins with one once it is stripped, and stripping it
/// again takes nothing more away.
pub proof fn stripped_stream_begins_with_a_slice(d: Seq<u8>)
    ensures
        slice_from(d, 0) < d.len() ==> slice_at(stripped(d), 0),
        stripped(stripped(d)) == stripped(d),
{
    slice_from_is_first(d, 0);
    let i = slice_from(d, 0);
    if i < d.len() {
        let r = stripped(d);
        assert(start_len_at(r, 0) == start_len_at(d, i));
        assert(slice_at(r, 0));
        slice_from_here(r, 0, 0);
        assert(r.subrange(0, r.len() as int) =~= r);
    }
}

proof fn units_are_not_empty(d: Seq<u8>, i: int)
    requires
        0 <= i,
    ensures
        forall|k: int| 0 <= k < nal_units(d, i).len() ==> (#[trigger] nal_units(d, i)[k]).len() > 0,
    decreases d.len() - i,
{
    if i + 4 <= d.len() {
        if start_len_at(d, i) > 0 {
            let start = i + start_len_at(d, i);
            unit_end_in_range(d, start);
            let end = unit_end(d, start);
            if i < end <= d.len() {
                units_are_not_empty(d, end);
                let rest = nal_units(d, end);
                if start < end {
                    let all = seq![d.subrange(start, end)] + rest;
                    assert forall|k: int| 0 <= k < all.len() implies (#[trigger] all[k]).len()
                        > 0 by {
                        if k > 0 {
                            assert(all[k] == rest[k - 1]);
                        }
                    }
                    assert(nal_units(d, i) == all);
                } else {
                    assert(nal_units(d, i) == rest);
                }
            }
        } else {
            units_are_not_empty(d, i + 1);
            assert(nal_units(d, i) == nal_units(d, i + 1));
        }
    }
}

proof fn last_of_type_has_the_type(units: Seq<Seq<u8>>, t: u8)
    requires
        forall|k: int| 0 <= k < units.len() ==> (#[trigger] units[k]).len() > 0,
    ensures
        last_of_type(units, t).len() > 0 ==> nal_type(last_of_type(units, t)[0]) == t,
        last_of_type(units, t).len() == 0 <==> forall|k: int|
            0 <= k < units.len() ==> nal_type(#[trigger] units[k][0]) != t,
    decreases units.len(),
{
    if units.len() > 0 && nal_type(units.last()[0]) != t {
        let front = units.drop_last();
        last_of_type_has_the_type(front, t);
        assert forall|k: int| 0 <= k < front.len() implies front[k] == units[k] by {}
        if last_of_type(units, t).len() == 0 {
            assert forall|k: int| 0 <= k < units.len() implies nal_type(#[trigger] units[k][0]) != t by {
                if k < front.len() {
                    assert(nal_type(front[k][0]) != t);
                }
            }
        } else {
            let k = choose|k: int| 0 <= k < front.len() && nal_type(#[trigger] front[k][0]) == t;
            assert(nal_type(units[k][0]) == t);
        }
    } else if units.len() > 0 {
        let k = units.len() - 1;
        assert(nal_type(units[k][0]) == t);
    }
}

/// What is taken out of a stream as a parameter set is one: a unit of that type. Nothing is
/// taken out only where the stream has no unit of the type.
pub proof fn extracted_sets_have_their_type(d: Seq<u8>, t: u8)
    ensures
        last_of_type(nal_units(d, 0), t).len() > 0 ==> nal_type(last_of_type(nal_units(d, 0), t)[0])
            == t,
        last_of_type(nal_units(d, 0), t).len() == 0 <==> forall|k: int|
            0 <= k < nal_units(d, 0).len() ==> nal_type(#[trigger] nal_units(d, 0)[k][0]) != t,
{
    units_are_not_empty(d, 0);
    last_of_type_has_the_type(nal_units(d, 0), t);
}

/// The type of a unit is in the low five bits of its first byte: for every type, it is the same
/// whatever the three bits above say of the unit's importance.
pub proof fn type_is_in_the_low_five_bits(t: u8, importance: u8)
    requires
        t < 32,
        importance < 8,
    ensures
        nal_type((importance * 32 + t) as u8) == t,
{
    low_bits_are_the_remainder((importance * 32 + t) as u8);
}

proof fn low_bits_are_the_remainder(b: u8)
    ensures
        nal_type(b) == b % 32,
{
    assert(b & 0x1F == b % 32) by (bit_vector);
}

/// The first byte of a unit stands at `p`: right behind two zeros and a one.
pub open spec fn unit_begins(d: Seq<u8>, p: int) -> bool {
    3 <= p < d.len() && d[p - 3] == 0 && d[p - 2] == 0 && d[p - 1] == 1
}

/// The first byte of a unit of the given type stands at `p`.
pub open spec fn unit_of_type(d: Seq<u8>, p: int, t: int) -> bool {
    unit_begins(d, p) && d[p] % 32 == t
}

/// Where the start code of the unit at `p` begins: it is the longer one where another zero comes
/// before it.
pub open spec fn code_before(d: Seq<u8>, p: int) -> int {
    if p >= 4 && d[p - 4] == 0 {
        p - 4
    } else {
        p - 3
    }
}

proof fn code_leads_to_unit(d: Seq<u8>, p: int)
    requires
        unit_begins(d, p),
    ensures
        start_len_at(d, code_before(d, p)) == p - code_before(d, p),
        forall|j: int|
            0 <= j < code_before(d, p) && start_len_at(d, j) > 0 ==> j + #[trigger] start_len_at(
                d,
                j,
            ) < p,
{
}

proof fn units_are_behind_codes(d: Seq<u8>, j: int)
    requires
        start_len_at(d, j) > 0,
        j + start_len_at(d, j) < d.len(),
    ensures
        unit_begins(d, j + start_len_at(d, j)),
        start_len_at(d, j) == 4 ==> d[j] == 0,
{
}

/// The first sequence parameter set of a stream that has its profile and level bytes, whatever its
/// importance and whichever start code it stands behind, comes out with the constrained baseline
/// profile and the given level in these three bytes; every other byte stays as it is.
pub proof fn first_parameter_set_is_rewritten(d: Seq<u8>, level: u8, p: int)
    requires
        unit_of_type(d, p, 7),
        p + 3 < d.len(),
        forall|q: int| 0 <= q < p ==> !unit_of_type(d, q, 7),
    ensures
        baselined(d, level) == d.update(p + 1, 0x42).update(p + 2, 0xE0).update(p + 3, level),
{
    let i = code_before(d, p);
    code_leads_to_unit(d, p);
    low_bits_are_the_remainder(d[p]);
    assert(sps_at(d, i));
    assert forall|j: int| 0 <= j < i implies !sps_at(d, j) by {
        if sps_at(d, j) {
            let q = j + start_len_at(d, j);
            units_are_behind_codes(d, j);
            low_bits_are_the_remainder(d[q]);
            assert(unit_of_type(d, q, 7));
        }
    }
    sps_from_here(d, 0, i);
}

/// A stream without a sequence parameter set that has its profile and level bytes stays as it is.
pub proof fn streams_without_parameter_sets_stay(d: Seq<u8>, level: u8)
    requires
        forall|p: int| unit_of_type(d, p, 7) ==> p + 3 >= d.len(),
    ensures
        baselined(d, level) == d,
{
    assert forall|j: int| 0 <= j < d.len() implies !sps_at(d, j) by {
        if sps_at(d, j) {
            let q = j + start_len_at(d, j);
            units_are_behind_codes(d, j);
            low_bits_are_the_remainder(d[q]);
            assert(unit_of_type(d, q, 7));
        }
    }
    sps_from_here(d, 0, d.len() as int);
}

/// A stream holds an instantaneous refresh exactly where some unit has type 5, of whatever
/// importance, and does not consist of the very last byte behind a short start code.
pub proof fn refreshes_are_units_of_their_type(d: Seq<u8>)
    ensures
        has_idr(d) <==> exists|p: int|
            #[trigger] unit_of_type(d, p, 5) && (p + 1 < d.len() || (p >= 4 && d[p - 4] == 0)),
{
    if has_idr(d) {
        let i = choose|i: int| 0 <= i < d.len() - 4 && idr_at(d, i);
        let p = i + start_len_at(d, i);
        units_are_behind_codes(d, i);
        low_bits_are_the_remainder(d[p]);
        assert(unit_of_type(d, p, 5));
    }
    if exists|p: int|
        #[trigger] unit_of_type(d, p, 5) && (p + 1 < d.len() || (p >= 4 && d[p - 4] == 0)) {
        let p = choose|p: int|
            #[trigger] unit_of_type(d, p, 5) && (p + 1 < d.len() || (p >= 4 && d[p - 4] == 0));
        code_leads_to_unit(d, p);
        low_bits_are_the_remainder(d[p]);
        assert(idr_at(d, code_before(d, p)));
    }
}

/// The unit at `p` is a picture slice: its type is 1 or 5.
pub open spec fn slice_unit(d: Seq<u8>, p: int) -> bool {
    unit_of_type(d, p, 1) || unit_of_type(d, p, 5)
}

/// What is left of a stream begins with the start code of its first picture slice, of whatever
/// importance, and goes on to the end; all that came before is gone.
pub proof fn streams_are_cut_at_the_first_slice(d: Seq<u8>, p: int)
    requires
        slice_unit(d, p),
        forall|q: int| 0 <= q < p ==> !slice_unit(d, q),
    ensures
        stripped(d) == d.subrange(code_before(d, p), d.len() as int),
{
    let i = code_before(d, p);
    code_leads_to_unit(d, p);
    low_bits_are_the_remainder(d[p]);
    assert(slice_at(d, i));
    assert forall|j: int| 0 <= j < i implies !slice_at(d, j) by {
        if slice_at(d, j) {
            let q = j + start_len_at(d, j);
            units_are_behind_codes(d, j);
            low_bits_are_the_remainder(d[q]);
            assert(slice_unit(d, q));
        }
    }
    slice_from_here(d, 0, i);
}

/// A stream without a picture slice is left whole.
pub proof fn streams_without_slices_are_left_whole(d: Seq<u8>)
    requires
        forall|p: int| !slice_unit(d, p),
    ensures
        stripped(d) == d,
{
    assert forall|j: int| 0 <= j < d.len() implies !slice_at(d, j) by {
        if slice_at(d, j) {
            let q = j + start_len_at(d, j);
            units_are_behind_codes(d, j);
            low_bits_are_the_remainder(d[q]);
            assert(slice_unit(d, q));
        }
    }
    slice_from_here(d, 0, d.len() as int);
}

/// A start code, of four bytes or of three.
pub open spec fn code_bytes(long: bool) -> Seq<u8> {
    if long {
        seq![0u8, 0u8, 0u8, 1u8]
    } else {
        seq![0u8, 0u8, 1u8]
    }
}

/// Units, each behind a start code, which is a long one where the list says so.
pub open spec fn with_codes(units: Seq<Seq<u8>>, long: Seq<bool>) -> Seq<u8>
    decreases units.len(),
{
    if units.len() == 0 {
        Seq::empty()
    } else {
        code_bytes(long[0]) + units[0] + with_codes(units.drop_first(), long.drop_first())
    }
}

/// The bytes can stand as a unit in a stream: there are some, no start code is among them, and the
/// last one is not zero.
pub open spec fn is_unit(u: Seq<u8>) -> bool {
    &&& u.len() > 0
    &&& u.last() != 0
    &&& forall|i: int|
        0 <= i && i + 2 < u.len() ==> !(#[trigger] u[i] == 0 && u[i + 1] == 0 && u[i + 2] == 1)
}

proof fn unit_ends_at_the_next_code(d: Seq<u8>, start: int, end: int, from: int)
    requires
        0 <= start <= from <= end <= d.len(),
        start < end,
        is_unit(d.subrange(start, end)),
        end < d.len() ==> end + 3 < d.len() && start_len_at(d, end) > 0,
    ensures
        unit_end(d, from) == end,
    decreases end - from,
{
    let u = d.subrange(start, end);
    assert(u.last() == d[end - 1]);
    if from < end {
        if from + 3 < d.len() {
            if from + 2 < end {
                assert(u[from - start] == d[from] && u[from - start + 1] == d[from + 1] && u[from
                    - start + 2] == d[from + 2]);
            }
            if from + 3 < end {
                assert(u[from - start + 1] == d[from + 1] && u[from - start + 2] == d[from + 2]
                    && u[from - start + 3] == d[from + 3]);
            }
            assert(start_len_at(d, from) == 0);
            unit_ends_at_the_next_code(d, start, end, from + 1);
        }
    }
}

proof fn units_are_found_from(pre: Seq<u8>, units: Seq<Seq<u8>>, long: Seq<bool>)
    requires
        long.len() == units.len(),
        forall|k: int| 0 <= k < units.len() ==> is_unit(#[trigger] units[k]),
    ensures
        nal_units(pre + with_codes(units, long), pre.len() as int) == units,
    decreases units.len(),
{
    let d = pre + with_codes(units, long);
    let i = pre.len() as int;
    if units.len() == 0 {
        assert(d.len() == i);
        assert(nal_units(d, i) =~= units);
    } else {
        let code = code_bytes(long[0]);
        let u = units[0];
        let tail = units.drop_first();
        let tail_long = long.drop_first();
        let rest = with_codes(tail, tail_long);
        assert(is_unit(u));
        assert forall|k: int| 0 <= k < tail.len() implies is_unit(#[trigger] tail[k]) by {
            assert(tail[k] == units[k + 1]);
        }
        let front = pre + code + u;
        units_are_found_from(front, tail, tail_long);
        assert(d =~= front + rest);
        let start = i + code.len();
        let end = start + u.len();
        assert(d.subrange(start, end) =~= u);
        assert(d[i] == code[0] && d[i + 1] == code[1] && d[i + 2] == code[2]);
        if long[0] {
            assert(d[i + 3] == code[3]);
        }
        assert(start_len_at(d, i) == code.len());
        if tail.len() > 0 {
            let next = code_bytes(tail_long[0]);
            assert(rest == next + tail[0] + with_codes(tail.drop_first(), tail_long.drop_first()));
            assert(is_unit(tail[0]));
            assert(rest.len() >= 4);
            assert(d[end] == next[0] && d[end + 1] == next[1] && d[end + 2] == next[2]);
            if tail_long[0] {
                assert(d[end + 3] == next[3]);
            }
            assert(start_len_at(d, end) > 0);
        } else {
            assert(rest.len() == 0);
        }
        unit_ends_at_the_next_code(d, start, end, start);
        assert(nal_units(d, i) == seq![u] + nal_units(d, end));
        assert(seq![u] + tail =~= units);
    }
}

/// Units that are set one behind the other, each behind a start code of either kind, are found
/// again: all of them, in order and unchanged.
pub proof fn units_are_found(units: Seq<Seq<u8>>, long: Seq<bool>)
    requires
        long.len() == units.len(),
        forall|k: int| 0 <= k < units.len() ==> is_unit(#[trigger] units[k]),
    ensures
        nal_units(with_codes(units, long), 0) == units,
{
    units_are_found_from(Seq::empty(), units, long);
    assert(Seq::<u8>::empty() + with_codes(units, long) =~= with_codes(units, long));
}

/// Of the units of a stream that have a type, of whatever importance, the last one is taken out as
/// the parameter set of that type; where none has it, nothing is.
pub proof fn last_unit_of_a_type_is_extracted(
    units: Seq<Seq<u8>>,
    long: Seq<bool>,
    t: u8,
    k: int,
)
    requires
        long.len() == units.len(),
        forall|j: int| 0 <= j < units.len() ==> is_unit(#[trigger] units[j]),
        -1 <= k < units.len(),
        k >= 0 ==> units[k][0] % 32 == t,
        forall|j: int| k < j < units.len() ==> (#[trigger] units[j])[0] % 32 != t,
    ensures
        last_of_type(nal_units(with_codes(units, long), 0), t) == (if k >= 0 {
            units[k]
        } else {
            Seq::<u8>::empty()
        }),
{
    units_are_found(units, long);
    last_of_type_is_the_last(units, t, k);
}

proof fn last_of_type_is_the_last(units: Seq<Seq<u8>>, t: u8, k: int)
    requires
        -1 <= k < units.len(),
        k >= 0 ==> units[k][0] % 32 == t,
        forall|j: int| k < j < units.len() ==> (#[trigger] units[j])[0] % 32 != t,
    ensures
        last_of_type(units, t) == (if k >= 0 {
            units[k]
        } else {
            Seq::<u8>::empty()
        }),
    decreases units.len(),
{
    if units.len() > 0 {
        let last = units.len() - 1;
        assert(units.last() == units[last]);
        low_bits_are_the_remainder(units[last][0]);
        if k < last {
            let front = units.drop_last();
            assert forall|j: int| k < j < front.len() implies (#[trigger] front[j])[0] % 32 != t by {
                assert(front[j] == units[j]);
            }
            last_of_type_is_the_last(front, t, k);
        }
    }
}

/// A stream that holds two zeros and a one in a row anywhere is taken to be in Annex B form, and
/// stays as it is.
pub proof fn streams_with_start_codes_stay(d: Seq<u8>, i: int)
    requires
        0 <= i,
        i + 2 < d.len(),
        d[i] == 0,
        d[i + 1] == 0,
        d[i + 2] == 1,
    ensures
        annexb_of(d) == d,
        i == 0 && d.len() >= 4 ==> normalized(d) == d,
        i == 1 && d[0] == 0 ==> normalized(d) == d,
{
    assert(start_len_at(d, i) > 0);
}

/// The bytes of a length count up to it, most significant first, and what a length is replaced by
/// are three zeros and a one.
pub proof fn lengths_and_codes_are_four_bytes(a: u8, b: u8, c: u8, e: u8)
    ensures
        length_bytes((a * 0x1000000 + b * 0x10000 + c * 0x100 + e) as nat) == seq![a, b, c, e],
        with_start_codes(seq![seq![a]]) == seq![0u8, 0u8, 0u8, 1u8, a],
{
    let n = (a * 0x1000000 + b * 0x10000 + c * 0x100 + e) as nat;
    assert(n / 0x1000000 % 256 == a);
    assert(n / 0x10000 % 256 == b);
    assert(n / 0x100 % 256 == c);
    assert(n % 256 == e);
    assert(length_bytes(n) =~= seq![a, b, c, e]);
    let one = seq![seq![a]];
    assert(one.drop_first() =~= Seq::<Seq<u8>>::empty());
    assert(with_start_codes(one.drop_first()) =~= Seq::<u8>::empty());
    assert(with_start_codes(one) =~= seq![0u8, 0u8, 0u8, 1u8, a]);
}

proof fn length_is_read_back(n: nat, d: Seq<u8>)
    requires
        n < 0x1_0000_0000,
        d.len() >= 4,
        d.subrange(0, 4) == length_bytes(n),
    ensures
        be32(d[0], d[1], d[2], d[3]) == n,
{
    let head = length_bytes(n);
    assert(d[0] == d.subrange(0, 4)[0] && d[1] == d.subrange(0, 4)[1] && d[2] == d.subrange(
        0,
        4,
    )[2] && d[3] == d.subrange(0, 4)[3]);
    assert(be32(head[0], head[1], head[2], head[3]) == n);
}

/// What is made of a stream that begins with a unit behind its length.
proof fn first_unit_is_replaced(u: Seq<u8>, rest: Seq<u8>, stop_at_empty: bool)
    requires
        u.len() < 0x1_0000_0000,
        stop_at_empty ==> u.len() > 0,
    ensures
        avcc_units(length_bytes(u.len()) + u + rest, stop_at_empty) == start_code() + u + avcc_units(
            rest,
            stop_at_empty,
        ),
{
    let d = length_bytes(u.len()) + u + rest;
    let n = u.len() as int;
    assert(d.subrange(0, 4) =~= length_bytes(u.len()));
    length_is_read_back(u.len(), d);
    assert(d.subrange(4, 4 + n) =~= u);
    assert(d.subrange(4 + n, d.len() as int) =~= rest);
}

proof fn whole_units_are_replaced(units: Seq<Seq<u8>>, tail: Seq<u8>, stop_at_empty: bool)
    requires
        units_fit(units, stop_at_empty),
        avcc_units(tail, stop_at_empty) == Seq::<u8>::empty(),
    ensures
        avcc_units(with_lengths(units) + tail, stop_at_empty) == with_start_codes(units),
    decreases units.len(),
{
    let d = with_lengths(units) + tail;
    if units.len() == 0 {
        assert(d =~= tail);
    } else {
        let rest = units.drop_first();
        assert forall|i: int| 0 <= i < rest.len() implies (#[trigger] rest[i]).len()
            < 0x1_0000_0000 && (stop_at_empty ==> rest[i].len() > 0) by {
            assert(rest[i] == units[i + 1]);
        }
        whole_units_are_replaced(rest, tail, stop_at_empty);
        assert(d =~= length_bytes(units[0].len()) + units[0] + (with_lengths(rest) + tail));
        first_unit_is_replaced(units[0], with_lengths(rest) + tail, stop_at_empty);
    }
}

/// The bytes are too few for a length, or the length that they begin with, most significant byte
/// first, runs past their end.
pub open spec fn is_cut_short(tail: Seq<u8>) -> bool {
    tail.len() < 4 || tail[0] * 0x1000000 + tail[1] * 0x10000 + tail[2] * 0x100 + tail[3]
        > tail.len() - 4
}

/// Of a stream that breaks off within a unit, or within its length, the units before come out, and
/// nothing of the last one.
pub proof fn units_that_are_cut_short_are_dropped(units: Seq<Seq<u8>>, tail: Seq<u8>)
    requires
        units_fit(units, false),
        is_cut_short(tail),
    ensures
        !has_start_code(with_lengths(units) + tail) ==> annexb_of(with_lengths(units) + tail)
            == with_start_codes(units),
        units_fit(units, true) && units.len() > 0 && !begins_annexb(with_lengths(units) + tail)
            ==> normalized(with_lengths(units) + tail) == with_start_codes(units),
{
    whole_units_are_replaced(units, tail, false);
    if units_fit(units, true) {
        whole_units_are_replaced(units, tail, true);
        if units.len() > 0 {
            assert(with_start_codes(units).len() > 0);
            assert(with_lengths(units).len() > 0);
        }
    }
}

/// A picture in which not even one unit can be read is taken as a single unit: it comes out whole,
/// behind three zeros and a one.
pub proof fn unreadable_pictures_are_one_unit(d: Seq<u8>)
    requires
        d.len() > 0,
        is_cut_short(d) || (d[0] == 0 && d[1] == 0 && d[2] == 0 && d[3] == 0),
        !(d.len() >= 4 && d[0] == 0 && d[1] == 0 && (d[2] == 1 || (d[2] == 0 && d[3] == 1))),
    ensures
        normalized(d) == seq![0u8, 0u8, 0u8, 1u8] + d,
{
    assert(avcc_units(d, true) == Seq::<u8>::empty());
    assert(!begins_annexb(d));
}

/// The level is 5.1 for pictures from 3840 wide on and for more than 60 frames a second, at least
/// 4.2 beyond 1920 or from 60 frames on, and 4.0 for the rest; ten times the level is what stands
/// in the header.
pub proof fn levels_grow_with_the_picture(width: u32, fps: u32, width2: u32, fps2: u32)
    requires
        width <= width2,
        fps <= fps2,
    ensures
        level_for(width, fps) <= level_for(width2, fps2),
        level_for(width, fps) == 40 || level_for(width, fps) == 42 || level_for(width, fps) == 51,
        level_for(width, fps) >= 42 <==> width > 1920 || fps >= 60,
        level_for(width, fps) == 51 <==> width >= 3840 || fps > 60,
{
}

/// A stream begins with a start code when it begins with two zeros and a one, or with three zeros
/// and a one, and a fourth byte is there.
pub proof fn start_codes_are_told_by_four_bytes(a: u8, b: u8, c: u8, e: u8, tail: Seq<u8>)
    ensures
        begins_annexb(seq![a, b, c, e] + tail) <==> a == 0 && b == 0 && (c == 1 || c == 0 && e == 1),
        !begins_annexb(seq![a, b, c]),
        !begins_annexb(seq![a, b]),
        !begins_annexb(seq![a]),
        !begins_annexb(Seq::empty()),
{
}

} // verus!
