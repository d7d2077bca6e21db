use vstd::prelude::*;
use crate::stroke::{
    Point, Spell, SpellBuilder, cast_ready, is_sentinel, no_repeats, no_sentinel, stored_after,
};

verus! {

/// Bytes read from the pad per sample.
pub const REPORT_SIZE: usize = 9;

/// The report type that carries a position sample.
pub const POSITION_REPORT: u8 = 1;

/// A little-endian 16-bit value.
pub open spec fn le_u16(lo: u8, hi: u8) -> u16 {
    (lo as int + 256 * hi as int) as u16
}

/// What a pad report says: a position for a position report, nothing otherwise.
pub open spec fn report_point(report: Seq<u8>) -> Option<Point> {
    if report[2] == POSITION_REPORT {
        Some((le_u16(report[5], report[6]), le_u16(report[7], report[8])))
    } else {
        None
    }
}

fn read_le_u16(lo: u8, hi: u8) -> (r: u16)
    ensures
        r == le_u16(lo, hi),
{
    (hi as u16) * 256 + (lo as u16)
}

/// Decodes one pad report: byte 2 is the report type, bytes 5-6 and 7-8
/// the little-endian X and Y of a position report.
pub fn decode_report(report: &[u8; 9]) -> (r: Option<Point>)
    ensures
        r == report_point(report@),
{
    if report[2] == POSITION_REPORT {
        let x = read_le_u16(report[5], report[6]);
        let y = read_le_u16(report[7], report[8]);
        Some((x, y))
    } else {
        None
    }
}

/// One turn of the sampling loop: a position sample is fed to the builder,
/// and once the pen lifts over a non-empty buffer the stroke is handed out
/// and the builder starts afresh. Other reports change nothing.
pub fn track_sample(builder: &mut SpellBuilder, report: &[u8; 9]) -> (r: Option<Spell>)
    requires
        old(builder).wf(),
    ensures
        final(builder).wf(),
        old(builder).idle_or_drawing() ==> final(builder).idle_or_drawing(),
        match report_point(report@) {
            None => r.is_none() && *final(builder) == *old(builder),
            Some(p) => {
                let stored = stored_after(old(builder).stored(), old(builder).last_seen(), p);
                if cast_ready(stored, p) {
                    &&& r is Some && r.unwrap()@ == stored
                    &&& final(builder).stored().len() == 0
                    &&& is_sentinel(final(builder).last_seen())
                } else {
                    &&& r.is_none()
                    &&& final(builder).stored() == stored
                    &&& final(builder).last_seen() == p
                }
            },
        },
        r matches Some(s) ==> {
            &&& s@.len() > 0
            &&& no_sentinel(s@)
            &&& old(builder).idle_or_drawing() ==> no_repeats(s@)
        },
{
    match decode_report(report) {
        None => None,
        Some(p) => {
            builder.step(p);
            if builder.should_cast() {
                let stroke = builder.build();
                builder.reset();
                Some(stroke)
            } else {
                proof {
                    let b = *old(builder);
                    if b.idle_or_drawing() {
                        let s = builder.stored();
                        if !is_sentinel(p) && p != b.last_seen() {
                            assert forall|i: int| 0 < i < s.len() implies #[trigger] s[i] != s[i - 1] by {
                                if i < b.stored().len() {
                                    assert(s[i] == b.stored()[i]);
                                    assert(s[i - 1] == b.stored()[i - 1]);
                                }
                            }
                        }
                    }
                }
                None
            }
        },
    }
}

} // verus!
