//! System load monitoring: the process-count field of the load-average
//! line, `running/all`, read into plain numbers. Reading the line itself,
//! and its fractional load figures, are the caller's concern.

use vstd::prelude::*;

verus! {

use vstd::string::StringSliceAdditionalSpecFns;

use crate::latency::{
    all_ascii_digits,
    copy_range,
    dec_val,
    find_first_byte,
    first_index_of_byte,
    parse_decimal,
};

/// Samples system load averages and process counts each tick.
pub struct LoadavgMonitor {}

impl LoadavgMonitor {
    pub fn new() -> LoadavgMonitor {
        LoadavgMonitor {  }
    }
}

/// What a `running/all` process-count field means, if anything: decimal
/// digits, one slash, decimal digits, both numbers fitting a `u64`.
pub open spec fn proc_counts(bs: Seq<u8>) -> Option<(int, int)> {
    let d = first_index_of_byte(bs, 47);
    if d == -1 {
        None
    } else {
        let running = bs.take(d);
        let all = bs.skip(d + 1);
        if running.len() >= 1 && all_ascii_digits(running) && dec_val(running) <= u64::MAX
            && all.len() >= 1 && all_ascii_digits(all) && dec_val(all) <= u64::MAX {
            Some((dec_val(running), dec_val(all)))
        } else {
            None
        }
    }
}

/// Read the `running/all` field of a load-average line.
pub fn parse_proc_counts(field: &str) -> (r: Option<(u64, u64)>)
    ensures
        r == (match proc_counts(field.spec_bytes()) {
            Some(p) => Some((p.0 as u64, p.1 as u64)),
            None => None::<(u64, u64)>,
        }),
{
    let bs = field.as_bytes();
    let v = copy_range(bs, 0, bs.len());
    proof {
        assert(v@ =~= field.spec_bytes());
    }
    let d = match find_first_byte(&v, 47) {
        Some(d) => d,
        None => {
            return None;
        },
    };
    proof {
        assert(v@.subrange(0, d as int) =~= v@.take(d as int));
        assert(v@.subrange(d + 1, v@.len() as int) =~= v@.skip(d + 1));
    }
    let running = match parse_decimal(&v, 0, d) {
        Some(n) => n,
        None => {
            return None;
        },
    };
    let all = match parse_decimal(&v, d + 1, v.len()) {
        Some(n) => n,
        None => {
            return None;
        },
    };
    Some((running, all))
}

} // verus!
