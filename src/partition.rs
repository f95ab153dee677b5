//! The length partitioner: how many symbols each active class contributes.
use vstd::prelude::*;

verus! {

/// Why no password can be generated for a request.
#[derive(Clone, Copy, Debug, PartialEq, Eq, Structural)]
pub enum GenError {
    /// Every character class was excluded.
    NoActiveClass,
    /// The length is smaller than the number of active classes, so some class
    /// could not receive a symbol.
    LengthTooShort,
}

/// One for a class that takes part, zero for an excluded one.
pub open spec fn weight(excluded: bool) -> int {
    if excluded {
        0
    } else {
        1
    }
}

/// The number of classes that take part, given the four exclusion flags.
pub open spec fn active_count(lc: bool, uc: bool, di: bool, sy: bool) -> int {
    weight(lc) + weight(uc) + weight(di) + weight(sy)
}

/// `raw` brought into the closed range `[min, max]`.
pub open spec fn clamped(raw: int, min: int, max: int) -> int {
    if raw < min {
        min
    } else if raw > max {
        max
    } else {
        raw
    }
}

/// The count that one class receives when `len` symbols are still to be
/// handed out among `groups` pending classes, this one included. An excluded
/// class gets nothing. The last pending class gets all that is left. Any
/// other class gets a draw around `len / groups`, clamped so that every class
/// after it can still get one symbol.
pub open spec fn slot_share<F: Fn(usize) -> usize>(
    draw: F,
    excluded: bool,
    len: int,
    groups: int,
    count: int,
) -> bool {
    if excluded {
        count == 0
    } else if groups > 1 {
        exists|raw: usize|
            #[trigger] draw.ensures(((len / groups) as usize,), raw) && count == clamped(
                raw as int,
                1,
                len - groups + 1,
            )
    } else {
        count == len
    }
}

/// Clamps a drawn value into `[min, max]`.
pub fn clamp_draw(raw: usize, min: usize, max: usize) -> (r: usize)
    requires
        min <= max,
    ensures
        r == clamped(raw as int, min as int, max as int),
{
    if raw < min {
        min
    } else if raw > max {
        max
    } else {
        raw
    }
}

/// Hands one class its share and updates what remains to be handed out.
fn allocate_slot<F: Fn(usize) -> usize>(
    draw: &F,
    excluded: bool,
    remaining_length: &mut usize,
    remaining_groups: &mut usize,
) -> (count: usize)
    requires
        forall|m: usize| draw.requires((m,)),
        *old(remaining_groups) >= weight(excluded),
        *old(remaining_length) >= *old(remaining_groups),
    ensures
        slot_share(*draw, excluded, *old(remaining_length) as int, *old(remaining_groups) as int, count as int),
        *final(remaining_length) == *old(remaining_length) - count,
        *final(remaining_groups) == *old(remaining_groups) - weight(excluded),
        *final(remaining_length) >= *final(remaining_groups),
        !excluded ==> count >= 1,
{
    if excluded {
        0
    } else if *remaining_groups > 1 {
        let mean = *remaining_length / *remaining_groups;
        let raw = draw(mean);
        let count = clamp_draw(raw, 1, *remaining_length - *remaining_groups + 1);
        assert(draw.ensures((mean,), raw));
        *remaining_length = *remaining_length - count;
        *remaining_groups = *remaining_groups - 1;
        count
    } else {
        let count = *remaining_length;
        *remaining_length = 0;
        *remaining_groups = 0;
        count
    }
}

/// Splits `total_length` among the classes that are not excluded, in the
/// order lowercase, uppercase, digits, symbols. The flags say which classes
/// are excluded; the result gives the four counts in that order.
///
/// `draw` is asked for a value around a given mean (a sample of a normal
/// distribution in the command-line tool); whatever it returns, the counts
/// sum to `total_length` and every class that takes part gets at least one
/// symbol. The last class that takes part gets the remainder, not a draw.
pub fn decide_num_of_extructs<F: Fn(usize) -> usize>(
    total_length: usize,
    lc: bool,
    uc: bool,
    di: bool,
    sy: bool,
    draw: &F,
) -> (r: Result<(usize, usize, usize, usize), GenError>)
    requires
        forall|m: usize| draw.requires((m,)),
    ensures
        match r {
            Err(GenError::NoActiveClass) => active_count(lc, uc, di, sy) == 0,
            Err(GenError::LengthTooShort) => active_count(lc, uc, di, sy) >= 1
                && total_length < active_count(lc, uc, di, sy),
            Ok(_) => active_count(lc, uc, di, sy) >= 1 && total_length >= active_count(lc, uc, di, sy),
        },
        r matches Ok((a, b, c, d)) ==> {
            &&& a + b + c + d == total_length
            &&& if lc { a == 0 } else { a >= 1 }
            &&& if uc { b == 0 } else { b >= 1 }
            &&& if di { c == 0 } else { c >= 1 }
            &&& if sy { d == 0 } else { d >= 1 }
            &&& slot_share(*draw, lc, total_length as int, active_count(lc, uc, di, sy), a as int)
            &&& slot_share(
                *draw,
                uc,
                total_length - a,
                active_count(lc, uc, di, sy) - weight(lc),
                b as int,
            )
            &&& slot_share(
                *draw,
                di,
                total_length - a - b,
                active_count(lc, uc, di, sy) - weight(lc) - weight(uc),
                c as int,
            )
            &&& slot_share(
                *draw,
                sy,
                total_length - a - b - c,
                active_count(lc, uc, di, sy) - weight(lc) - weight(uc) - weight(di),
                d as int,
            )
        },
{
    let mut remaining_groups: usize = 0;
    if !lc {
        remaining_groups = remaining_groups + 1;
    }
    if !uc {
        remaining_groups = remaining_groups + 1;
    }
    if !di {
        remaining_groups = remaining_groups + 1;
    }
    if !sy {
        remaining_groups = remaining_groups + 1;
    }
    if remaining_groups == 0 {
        return Err(GenError::NoActiveClass);
    }
    if total_length < remaining_groups {
        return Err(GenError::LengthTooShort);
    }
    let mut remaining_length = total_length;
    let num_lc = allocate_slot(draw, lc, &mut remaining_length, &mut remaining_groups);
    let num_uc = allocate_slot(draw, uc, &mut remaining_length, &mut remaining_groups);
    let num_di = allocate_slot(draw, di, &mut remaining_length, &mut remaining_groups);
    let num_sy = allocate_slot(draw, sy, &mut remaining_length, &mut remaining_groups);
    Ok((num_lc, num_uc, num_di, num_sy))
}

} // verus!
