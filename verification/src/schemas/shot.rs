use vstd::prelude::*;
use super::error::{Error, ErrorView};
use crate::text::{decimal, decimal_spec};

verus! {

broadcast use vstd::string::group_string_axioms;

/// The sum of a list of percentages.
pub open spec fn percentage_sum(ps: Seq<u8>) -> int
    decreases ps.len(),
{
    if ps.len() == 0 {
        0
    } else {
        percentage_sum(ps.drop_last()) + ps.last()
    }
}

/// The first checks of a shot: it ends either by weight or by time, not both, and it has at
/// least one profile step.
pub open spec fn output_check(has_weight: bool, has_time: bool, profile_count: nat) -> Result<(), ErrorView> {
    if !has_weight && !has_time {
        Err(ErrorView::MissingOutputSpecifier)
    } else if has_weight && has_time {
        Err(ErrorView::InvalidProfile("Cannot specify both weight and time"@))
    } else if profile_count == 0 {
        Err(ErrorView::MissingProfile)
    } else {
        Ok(())
    }
}

/// Model of a check's result.
pub open spec fn check_view(r: Result<(), Error>) -> Result<(), ErrorView> {
    match r {
        Ok(()) => Ok(()),
        Err(e) => Err(e@),
    }
}

/// Checks how a shot ends and that it has profile steps.
pub fn validate_output(has_weight: bool, has_time: bool, profile_count: usize) -> (r: Result<(), Error>)
    ensures
        check_view(r) == output_check(has_weight, has_time, profile_count as nat),
{
    if !has_weight && !has_time {
        return Err(Error::MissingOutputSpecifier);
    }
    if has_weight && has_time {
        return Err(Error::InvalidProfile("Cannot specify both weight and time".to_string()));
    }
    if profile_count == 0 {
        return Err(Error::MissingProfile);
    }
    Ok(())
}

/// Checks the share of the shot one profile step takes: at most 100 percent.
pub fn validate_percentage(percentage: u8) -> (r: Result<(), Error>)
    ensures
        percentage <= 100 ==> r is Ok,
        percentage > 100 ==> check_view(r) == Err::<(), ErrorView>(
            ErrorView::InvalidProfile("Invalid percentage: "@ + decimal_spec(percentage as nat)),
        ),
{
    if percentage > 100 {
        return Err(Error::InvalidProfile("Invalid percentage: ".to_string().concat(decimal(percentage as u64).as_str())));
    }
    Ok(())
}

/// Checks that the profile steps share the whole shot: their percentages sum to 100.
pub fn validate_percentage_sum(percentages: &Vec<u8>) -> (r: Result<(), Error>)
    requires
        percentage_sum(percentages@) <= u8::MAX,
    ensures
        percentage_sum(percentages@) == 100 ==> r is Ok,
        percentage_sum(percentages@) != 100 ==> check_view(r) == Err::<(), ErrorView>(
            ErrorView::InvalidProfile(
                "Profile percentages do not sum to 100: "@ + decimal_spec(
                    percentage_sum(percentages@) as nat,
                ),
            ),
        ),
{
    let mut sum: u8 = 0;
    let mut i: usize = 0;
    while i < percentages.len()
        invariant
            i <= percentages@.len(),
            sum == percentage_sum(percentages@.take(i as int)),
            percentage_sum(percentages@) <= u8::MAX,
        decreases percentages@.len() - i,
    {
        proof {
            assert(percentages@.take(i as int + 1).drop_last() =~= percentages@.take(i as int));
            lemma_prefix_sum_le(percentages@, i as int + 1);
        }
        sum = sum + percentages[i];
        i = i + 1;
    }
    proof {
        assert(percentages@.take(percentages@.len() as int) =~= percentages@);
    }
    if sum != 100 {
        return Err(Error::InvalidProfile("Profile percentages do not sum to 100: ".to_string().concat(decimal(sum as u64).as_str())));
    }
    Ok(())
}

/// A prefix sums to no more than the whole list.
proof fn lemma_prefix_sum_le(ps: Seq<u8>, k: int)
    requires
        0 <= k <= ps.len(),
    ensures
        percentage_sum(ps.take(k)) <= percentage_sum(ps),
    decreases ps.len(),
{
    if k < ps.len() {
        assert(ps.drop_last().take(k) =~= ps.take(k));
        lemma_prefix_sum_le(ps.drop_last(), k);
    } else {
        assert(ps.take(k) =~= ps);
    }
}

} // verus!
