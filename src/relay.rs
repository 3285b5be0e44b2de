use vstd::prelude::*;

verus! {

/// ASCII white space: space, and tab through carriage return.
pub open spec fn is_space_byte(b: u8) -> bool {
    b == 32 || (9 <= b && b <= 13)
}

/// The bytes without their trailing zero bytes.
pub open spec fn strip_trailing_nul(s: Seq<u8>) -> Seq<u8>
    decreases s.len(),
{
    if s.len() > 0 && s.last() == 0 {
        strip_trailing_nul(s.drop_last())
    } else {
        s
    }
}

/// The bytes without their trailing white space.
pub open spec fn trim_end_space(s: Seq<u8>) -> Seq<u8>
    decreases s.len(),
{
    if s.len() > 0 && is_space_byte(s.last()) {
        trim_end_space(s.drop_last())
    } else {
        s
    }
}

/// The bytes without their leading white space.
pub open spec fn trim_start_space(s: Seq<u8>) -> Seq<u8>
    decreases s.len(),
{
    if s.len() > 0 && is_space_byte(s[0]) {
        trim_start_space(s.drop_first())
    } else {
        s
    }
}

/// The locator in a relay's reply: trailing zero bytes dropped, then white
/// space at both ends.
pub open spec fn locator_of(response: Seq<u8>) -> Seq<u8> {
    trim_start_space(trim_end_space(strip_trailing_nul(response)))
}

/// Takes the locator out of a relay's reply; an empty one is `None`.
pub fn relay_locator(response: &Vec<u8>) -> (r: Option<Vec<u8>>)
    ensures
        locator_of(response@).len() == 0 ==> r is None,
        locator_of(response@).len() > 0 ==> (r matches Some(v) && v@ == locator_of(response@)),
{
    let s = Ghost(response@);
    let mut end: usize = response.len();
    assert(s@.subrange(0, end as int) =~= s@);
    while end > 0 && response[end - 1] == 0
        invariant
            end <= response@.len(),
            s@ == response@,
            strip_trailing_nul(s@) == strip_trailing_nul(s@.subrange(0, end as int)),
        decreases end,
    {
        assert(s@.subrange(0, end as int).drop_last() =~= s@.subrange(0, end - 1));
        end = end - 1;
    }
    assert(strip_trailing_nul(s@) == s@.subrange(0, end as int));
    while end > 0 && (response[end - 1] == 32 || (9 <= response[end - 1] && response[end - 1] <= 13))
        invariant
            end <= response@.len(),
            s@ == response@,
            trim_end_space(strip_trailing_nul(s@)) == trim_end_space(s@.subrange(0, end as int)),
        decreases end,
    {
        assert(s@.subrange(0, end as int).drop_last() =~= s@.subrange(0, end - 1));
        end = end - 1;
    }
    assert(trim_end_space(strip_trailing_nul(s@)) == s@.subrange(0, end as int));
    let mut start: usize = 0;
    while start < end && (response[start] == 32 || (9 <= response[start] && response[start] <= 13))
        invariant
            start <= end <= response@.len(),
            s@ == response@,
            locator_of(s@) == trim_start_space(s@.subrange(start as int, end as int)),
        decreases end - start,
    {
        assert(s@.subrange(start as int, end as int).drop_first() =~= s@.subrange(
            start + 1,
            end as int,
        ));
        start = start + 1;
    }
    assert(locator_of(s@) == s@.subrange(start as int, end as int));
    if start == end {
        return None;
    }
    let mut out: Vec<u8> = Vec::new();
    let mut i: usize = start;
    while i < end
        invariant
            start <= i <= end <= response@.len(),
            out@ == response@.subrange(start as int, i as int),
        decreases end - i,
    {
        out.push(response[i]);
        assert(out@ =~= response@.subrange(start as int, i + 1));
        i = i + 1;
    }
    Some(out)
}

} // verus!
