use simple_voting::{initialize, vote_option_a, vote_option_b, ErrorCode, Initialize, Vote, Voting};

fn flags(vote: &Vote) -> (bool, bool, bool) {
    (vote.option_a(), vote.option_b(), vote.has_voted())
}

fn initialized() -> Voting {
    let mut ctx = Initialize { vote: Vote::new(false, false, false) };
    assert_eq!(initialize(&mut ctx), Ok(()));
    Voting { vote: ctx.vote }
}

#[test]
fn initialize_clears_every_flag() {
    let mut ctx = Initialize { vote: Vote::new(false, false, false) };
    assert_eq!(initialize(&mut ctx), Ok(()));
    assert_eq!(flags(&ctx.vote), (false, false, false));
}

#[test]
fn initialize_overwrites_what_the_storage_held() {
    for a in [false, true] {
        for b in [false, true] {
            for h in [false, true] {
                let mut ctx = Initialize { vote: Vote::new(a, b, h) };
                assert_eq!(initialize(&mut ctx), Ok(()));
                assert_eq!(flags(&ctx.vote), (false, false, false));
            }
        }
    }
}

#[test]
fn first_vote_for_option_a_is_accepted() {
    let mut ctx = initialized();
    assert_eq!(vote_option_a(&mut ctx), Ok(()));
    assert_eq!(flags(&ctx.vote), (true, false, true));
}

#[test]
fn vote_for_b_after_a_is_refused() {
    let mut ctx = initialized();
    assert_eq!(vote_option_a(&mut ctx), Ok(()));
    assert_eq!(vote_option_b(&mut ctx), Err(ErrorCode::AlreadyVoted));
    assert_eq!(flags(&ctx.vote), (true, false, true));
}

#[test]
fn first_vote_for_option_b_is_accepted() {
    let mut ctx = initialized();
    assert_eq!(vote_option_b(&mut ctx), Ok(()));
    assert_eq!(flags(&ctx.vote), (false, true, true));
}

#[test]
fn vote_for_a_after_b_is_refused() {
    let mut ctx = initialized();
    assert_eq!(vote_option_b(&mut ctx), Ok(()));
    assert_eq!(vote_option_a(&mut ctx), Err(ErrorCode::AlreadyVoted));
    assert_eq!(flags(&ctx.vote), (false, true, true));
}

#[test]
fn same_option_twice_is_refused() {
    let mut ctx = initialized();
    assert_eq!(vote_option_a(&mut ctx), Ok(()));
    assert_eq!(vote_option_a(&mut ctx), Err(ErrorCode::AlreadyVoted));
    assert_eq!(flags(&ctx.vote), (true, false, true));

    let mut ctx = initialized();
    assert_eq!(vote_option_b(&mut ctx), Ok(()));
    assert_eq!(vote_option_b(&mut ctx), Err(ErrorCode::AlreadyVoted));
    assert_eq!(flags(&ctx.vote), (false, true, true));
}

#[test]
fn refusals_repeat_without_effect() {
    let mut ctx = initialized();
    assert_eq!(vote_option_b(&mut ctx), Ok(()));
    for _ in 0..5 {
        assert_eq!(vote_option_a(&mut ctx), Err(ErrorCode::AlreadyVoted));
        assert_eq!(vote_option_b(&mut ctx), Err(ErrorCode::AlreadyVoted));
        assert_eq!(flags(&ctx.vote), (false, true, true));
    }
}

#[test]
fn accepted_vote_resets_the_other_option() {
    let mut ctx = Voting { vote: Vote::new(false, true, false) };
    assert_eq!(vote_option_a(&mut ctx), Ok(()));
    assert_eq!(flags(&ctx.vote), (true, false, true));

    let mut ctx = Voting { vote: Vote::new(true, false, false) };
    assert_eq!(vote_option_b(&mut ctx), Ok(()));
    assert_eq!(flags(&ctx.vote), (false, true, true));

    let mut ctx = Voting { vote: Vote::new(true, true, false) };
    assert_eq!(vote_option_a(&mut ctx), Ok(()));
    assert_eq!(flags(&ctx.vote), (true, false, true));
}

#[test]
fn set_latch_refuses_whatever_the_options_hold() {
    for a in [false, true] {
        for b in [false, true] {
            let mut ctx = Voting { vote: Vote::new(a, b, true) };
            assert_eq!(vote_option_a(&mut ctx), Err(ErrorCode::AlreadyVoted));
            assert_eq!(flags(&ctx.vote), (a, b, true));
            assert_eq!(vote_option_b(&mut ctx), Err(ErrorCode::AlreadyVoted));
            assert_eq!(flags(&ctx.vote), (a, b, true));
        }
    }
}

#[test]
fn already_voted_message() {
    assert_eq!(ErrorCode::AlreadyVoted.message(), "You have already voted");
    let mut ctx = initialized();
    assert_eq!(vote_option_a(&mut ctx), Ok(()));
    let refused = vote_option_b(&mut ctx);
    assert!(matches!(refused, Err(ErrorCode::AlreadyVoted)));
    assert_eq!(refused.unwrap_err().message(), "You have already voted");
}
