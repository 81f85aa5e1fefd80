//! The tallying rules of the voting circuits, on the plain values that the
//! confidential computation holds encrypted.
use vstd::prelude::*;

verus! {

/// Number of option counters a multi-option poll keeps.
pub const MAX_OPTIONS: usize = 4;

/// The tallies of a yes/no poll.
#[derive(Clone, Copy, Debug, PartialEq, Eq, Structural)]
pub struct VoteStats {
    pub yes: u64,
    pub no: u64,
}

/// The tallies of a poll with two to four options; unused counters stay 0.
#[derive(Clone, Copy, Debug)]
pub struct MultiOptionVoteStats {
    pub option_counts: [u64; 4],
    pub num_options: u8,
}

/// One yes/no vote.
#[derive(Clone, Copy, Debug, PartialEq, Eq, Structural)]
pub struct UserVote {
    pub vote: bool,
}

/// One vote for the option at index `selected_option`.
#[derive(Clone, Copy, Debug, PartialEq, Eq, Structural)]
pub struct MultiOptionUserVote {
    pub selected_option: u8,
}

/// Zero tallies for a new yes/no poll.
pub fn init_vote_stats() -> (r: VoteStats)
    ensures
        r.yes == 0,
        r.no == 0,
{
    VoteStats { yes: 0, no: 0 }
}

/// Zero tallies for a new poll with `num_options` options.
pub fn init_multi_option_vote_stats(num_options: u8) -> (r: MultiOptionVoteStats)
    ensures
        r.option_counts@ == seq![0u64, 0u64, 0u64, 0u64],
        r.num_options == num_options,
{
    let r = MultiOptionVoteStats { option_counts: [0, 0, 0, 0], num_options };
    assert(r.option_counts@ =~= seq![0u64, 0u64, 0u64, 0u64]);
    r
}

/// Counts one yes/no vote.
pub fn vote(user_vote: UserVote, vote_stats: VoteStats) -> (r: VoteStats)
    requires
        user_vote.vote ==> vote_stats.yes < u64::MAX,
        !user_vote.vote ==> vote_stats.no < u64::MAX,
    ensures
        r.yes == vote_stats.yes + (if user_vote.vote { 1int } else { 0int }),
        r.no == vote_stats.no + (if user_vote.vote { 0int } else { 1int }),
{
    let mut stats = vote_stats;
    if user_vote.vote {
        stats.yes = stats.yes + 1;
    } else {
        stats.no = stats.no + 1;
    }
    stats
}

/// Whether the counter at index `k` is the one a vote for `selected` grows.
pub open spec fn is_selected(selected: u8, k: int) -> bool {
    k == selected as int
}

/// Counts one vote for an option: the counter of the selected option grows
/// by one, and a selection outside the counters changes nothing. Every
/// counter is visited, so which one grows does not show in the work done.
pub fn vote_multi_option(
    user_vote: MultiOptionUserVote,
    vote_stats: MultiOptionVoteStats,
) -> (r: MultiOptionVoteStats)
    requires
        forall|k: int|
            0 <= k < MAX_OPTIONS && is_selected(user_vote.selected_option, k)
                ==> #[trigger] vote_stats.option_counts[k] < u64::MAX,
    ensures
        r.num_options == vote_stats.num_options,
        forall|k: int|
            0 <= k < MAX_OPTIONS ==> #[trigger] r.option_counts[k] == vote_stats.option_counts[k]
                + if is_selected(user_vote.selected_option, k) { 1int } else { 0int },
{
    let mut stats = vote_stats;
    let mut i: u8 = 0;
    while i < 4
        invariant
            i <= 4,
            stats.num_options == vote_stats.num_options,
            forall|k: int|
                0 <= k < MAX_OPTIONS && is_selected(user_vote.selected_option, k)
                    ==> #[trigger] vote_stats.option_counts[k] < u64::MAX,
            forall|k: int|
                0 <= k < MAX_OPTIONS ==> #[trigger] stats.option_counts[k]
                    == vote_stats.option_counts[k] + if is_selected(user_vote.selected_option, k)
                    && k < i { 1int } else { 0int },
        decreases 4 - i,
    {
        if user_vote.selected_option == i {
            stats.option_counts[i as usize] = stats.option_counts[i as usize] + 1;
        }
        i = i + 1;
    }
    stats
}

/// Whether more voters said yes than no; a tie is no.
pub fn reveal_result(vote_stats: VoteStats) -> (r: bool)
    ensures
        r == (vote_stats.yes > vote_stats.no),
{
    vote_stats.yes > vote_stats.no
}

/// The counts of all options, unused ones included.
pub fn reveal_multi_option_result(vote_stats: MultiOptionVoteStats) -> (r: [u64; 4])
    ensures
        r@ == vote_stats.option_counts@,
{
    let counts = [
        vote_stats.option_counts[0],
        vote_stats.option_counts[1],
        vote_stats.option_counts[2],
        vote_stats.option_counts[3],
    ];
    assert(counts@ =~= vote_stats.option_counts@);
    counts
}

} // verus!
