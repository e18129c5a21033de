use vstd::prelude::*;

verus! {

/// Parameter-set and IDR tallies of an H.264 Annex-B stream: (SPS, PPS, IDR).
pub open spec fn add3(a: (int, int, int), b: (int, int, int)) -> (int, int, int) {
    (a.0 + b.0, a.1 + b.1, a.2 + b.2)
}

/// What the NAL header byte `b` adds to the tallies: its low five bits give
/// the unit type, 7 = SPS, 8 = PPS, 5 = IDR slice.
pub open spec fn nal_class(b: u8) -> (int, int, int) {
    let t = b & 0x1f;
    if t == 7 {
        (1, 0, 0)
    } else if t == 8 {
        (0, 1, 0)
    } else if t == 5 {
        (0, 0, 1)
    } else {
        (0, 0, 0)
    }
}

/// What the header byte at `t` adds, if `t` lies inside the stream.
pub open spec fn header_at(data: Seq<u8>, t: int) -> (int, int, int) {
    if 0 <= t < data.len() {
        nal_class(data[t])
    } else {
        (0, 0, 0)
    }
}

/// Tallies found by scanning `data` from position `i`: a start code
/// `00 00 01` or `00 00 00 01` at a position before the last three bytes is
/// followed by a NAL header, and scanning resumes after the start code;
/// otherwise scanning moves on by one byte.
pub open spec fn nal_counts_from(data: Seq<u8>, i: int) -> (int, int, int)
    decreases data.len() - i,
{
    if i < 0 || i >= data.len() - 3 {
        (0, 0, 0)
    } else if data[i] == 0 && data[i + 1] == 0 {
        if data[i + 2] == 1 {
            add3(header_at(data, i + 3), nal_counts_from(data, i + 3))
        } else if data[i + 2] == 0 && data[i + 3] == 1 {
            add3(header_at(data, i + 4), nal_counts_from(data, i + 4))
        } else {
            nal_counts_from(data, i + 1)
        }
    } else {
        nal_counts_from(data, i + 1)
    }
}

/// Counts the SPS, PPS and IDR NAL units of an H.264 Annex-B byte stream.
pub fn count_nal_types(data: &[u8]) -> (counts: (usize, usize, usize))
    ensures
        (counts.0 as int, counts.1 as int, counts.2 as int) == nal_counts_from(data@, 0),
{
    let mut sps: usize = 0;
    let mut pps: usize = 0;
    let mut idr: usize = 0;
    let mut i: usize = 0;
    let end = data.len().saturating_sub(3);
    while i < end
        invariant
            end == (if data@.len() >= 3 { data@.len() - 3 } else { 0 }),
            data@.len() == data.len(),
            sps + pps + idr <= i,
            i <= data@.len(),
            add3((sps as int, pps as int, idr as int), nal_counts_from(data@, i as int))
                == nal_counts_from(data@, 0),
        decreases data@.len() - i,
    {
        if data[i] == 0 && data[i + 1] == 0 {
            let (start_len, type_idx) = if data[i + 2] == 1 {
                (3, i + 3)
            } else if data[i + 2] == 0 && data[i + 3] == 1 {
                (4, i + 4)
            } else {
                i += 1;
                continue;
            };
            if type_idx < data.len() {
                let nal_type = data[type_idx] & 0x1F;
                if nal_type == 7 {
                    sps += 1;
                } else if nal_type == 8 {
                    pps += 1;
                } else if nal_type == 5 {
                    idr += 1;
                }
            }
            i += start_len;
        } else {
            i += 1;
        }
    }
    (sps, pps, idr)
}

/// Scanning depends only on what lies at and after the scan position: a
/// stream with anything in front of it scans, from the same point, like the
/// stream alone.
proof fn lemma_scan_ignores_prefix(p: Seq<u8>, r: Seq<u8>, i: int)
    requires
        i >= 0,
    ensures
        nal_counts_from(p + r, p.len() + i) == nal_counts_from(r, i),
    decreases r.len() - i,
{
    let d = p + r;
    let j = p.len() + i;
    if i < r.len() - 3 {
        assert(d[j] == r[i]);
        assert(d[j + 1] == r[i + 1]);
        assert(d[j + 2] == r[i + 2]);
        assert(d[j + 3] == r[i + 3]);
        assert(header_at(d, j + 3) == header_at(r, i + 3));
        assert(header_at(d, j + 4) == header_at(r, i + 4)) by {
            if i + 4 < r.len() {
                assert(d[j + 4] == r[i + 4]);
            }
        }
        lemma_scan_ignores_prefix(p, r, i + 1);
        lemma_scan_ignores_prefix(p, r, i + 3);
        lemma_scan_ignores_prefix(p, r, i + 4);
        assert(p.len() + (i + 1) == j + 1);
        assert(p.len() + (i + 3) == j + 3);
        assert(p.len() + (i + 4) == j + 4);
    }
}

/// A NAL unit behind a four-byte start code (`00 00 00 01`, then its
/// non-zero header byte `h`) put in front of a stream adds exactly what its
/// header counts: one more SPS, PPS or IDR unit, or nothing for other types.
pub proof fn lemma_prepend_unit_after_long_start_code(h: u8, rest: Seq<u8>)
    requires
        h != 0,
    ensures
        nal_counts_from(seq![0u8, 0u8, 0u8, 1u8, h] + rest, 0) == add3(
            nal_class(h),
            nal_counts_from(rest, 0),
        ),
{
    let u = seq![0u8, 0u8, 0u8, 1u8, h];
    let d = u + rest;
    assert(d[0] == 0 && d[1] == 0 && d[2] == 0 && d[3] == 1 && d[4] == h);
    assert(header_at(d, 4) == nal_class(h));
    lemma_scan_ignores_prefix(u, rest, 0);
    if 4 < d.len() - 3 {
        assert(nal_counts_from(d, 4) == nal_counts_from(d, 5));
    }
}

/// The same with a three-byte start code (`00 00 01`, then the non-zero
/// header byte `h`).
pub proof fn lemma_prepend_unit_after_short_start_code(h: u8, rest: Seq<u8>)
    requires
        h != 0,
    ensures
        nal_counts_from(seq![0u8, 0u8, 1u8, h] + rest, 0) == add3(
            nal_class(h),
            nal_counts_from(rest, 0),
        ),
{
    let u = seq![0u8, 0u8, 1u8, h];
    let d = u + rest;
    assert(d[0] == 0 && d[1] == 0 && d[2] == 1 && d[3] == h);
    assert(header_at(d, 3) == nal_class(h));
    lemma_scan_ignores_prefix(u, rest, 0);
    assert(d.len() == 4 + rest.len());
    assert(nal_counts_from(d, 0) == add3(header_at(d, 3), nal_counts_from(d, 3)));
    if 3 < d.len() - 3 {
        assert(nal_counts_from(d, 3) == nal_counts_from(d, 4));
    } else {
        assert(nal_counts_from(d, 3) == (0int, 0int, 0int));
        assert(nal_counts_from(rest, 0) == (0int, 0int, 0int));
    }
}

/// `n` NAL units with header `h`, each behind a four-byte start code.
pub open spec fn repeated_units(h: u8, n: nat) -> Seq<u8>
    decreases n,
{
    if n == 0 {
        Seq::empty()
    } else {
        seq![0u8, 0u8, 0u8, 1u8, h] + repeated_units(h, (n - 1) as nat)
    }
}

/// Units are counted, not just noticed: a stream of `n` start-code-prefixed
/// units with the same header counts `n` of that header's kind, so `n` IDR
/// slices (header `0x65`) count `n` IDR units.
pub proof fn lemma_units_are_counted(h: u8, n: nat)
    requires
        h != 0,
    ensures
        nal_counts_from(repeated_units(h, n), 0) == (
            n * nal_class(h).0,
            n * nal_class(h).1,
            n * nal_class(h).2,
        ),
    decreases n,
{
    if n > 0 {
        lemma_units_are_counted(h, (n - 1) as nat);
        lemma_prepend_unit_after_long_start_code(h, repeated_units(h, (n - 1) as nat));
        assert(n * nal_class(h).0 == (n - 1) * nal_class(h).0 + nal_class(h).0) by (nonlinear_arith);
        assert(n * nal_class(h).1 == (n - 1) * nal_class(h).1 + nal_class(h).1) by (nonlinear_arith);
        assert(n * nal_class(h).2 == (n - 1) * nal_class(h).2 + nal_class(h).2) by (nonlinear_arith);
    } else {
        assert(repeated_units(h, 0).len() == 0);
    }
}

} // verus!
