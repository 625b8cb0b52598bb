use ytdlp_guard::replacer::{
    copy_self_to_vrchat_tools_dir, replace, Failure, PassStep, ReplaceAction, ReplaceError, Stage,
};

#[test]
fn forced_pass_fetches_copies_and_sets_level() {
    let mut pass = replace(true, true);
    assert_eq!(pass.action(), ReplaceAction::Fetch);
    assert_eq!(pass.advance(Ok(())), PassStep::Perform(ReplaceAction::LocateSelf));
    assert_eq!(copy_self_to_vrchat_tools_dir(&mut pass, Ok(())), PassStep::Perform(ReplaceAction::CopySelf));
    assert_eq!(copy_self_to_vrchat_tools_dir(&mut pass, Ok(())), PassStep::Perform(ReplaceAction::SetIntegrityLevel));
    assert_eq!(pass.advance(Ok(())), PassStep::Finished(Ok(())));
    assert_eq!(pass.stage, Stage::Done);
}

#[test]
fn missing_original_is_fetched() {
    let pass = replace(false, false);
    assert_eq!(pass.action(), ReplaceAction::Fetch);
}

#[test]
fn present_original_is_not_fetched_again() {
    for _ in 0..2 {
        let mut pass = replace(true, false);
        assert_eq!(pass.action(), ReplaceAction::LocateSelf);
        let mut actions = vec![pass.action()];
        loop {
            match pass.advance(Ok(())) {
                PassStep::Perform(a) => actions.push(a),
                PassStep::Finished(r) => {
                    assert_eq!(r, Ok(()));
                    break;
                }
                PassStep::RetryAfter(_) => panic!("nothing failed"),
            }
        }
        assert!(!actions.contains(&ReplaceAction::Fetch));
        assert_eq!(
            actions,
            vec![ReplaceAction::LocateSelf, ReplaceAction::CopySelf, ReplaceAction::SetIntegrityLevel]
        );
    }
}

#[test]
fn locked_destination_is_retried_ten_times() {
    let mut pass = replace(true, false);
    assert_eq!(pass.advance(Ok(())), PassStep::Perform(ReplaceAction::CopySelf));
    for _ in 0..9 {
        assert_eq!(pass.advance(Err("in use".to_string())), PassStep::RetryAfter(100));
        assert_eq!(pass.action(), ReplaceAction::CopySelf);
    }
    assert_eq!(
        pass.advance(Err("still in use".to_string())),
        PassStep::Finished(Err(ReplaceError::CopySelf(Failure {
            attempts: 10,
            cause: "still in use".to_string()
        })))
    );
}

#[test]
fn failed_fetch_aborts_the_pass() {
    let mut pass = replace(true, true);
    assert_eq!(pass.advance(Err("404".to_string())), PassStep::RetryAfter(1000));
    assert_eq!(pass.advance(Err("404".to_string())), PassStep::RetryAfter(1000));
    assert_eq!(
        pass.advance(Err("503".to_string())),
        PassStep::Finished(Err(ReplaceError::Fetch(Failure { attempts: 3, cause: "503".to_string() })))
    );
}

#[test]
fn failed_lookup_of_own_image_aborts_the_pass() {
    let mut pass = replace(true, false);
    assert_eq!(pass.advance(Err("a".to_string())), PassStep::RetryAfter(50));
    assert_eq!(pass.advance(Err("b".to_string())), PassStep::RetryAfter(50));
    assert_eq!(
        pass.advance(Err("c".to_string())),
        PassStep::Finished(Err(ReplaceError::LocateSelf(Failure { attempts: 3, cause: "c".to_string() })))
    );
}

#[test]
fn failed_integrity_level_is_a_hard_error() {
    let mut pass = replace(true, false);
    pass.advance(Ok(()));
    pass.advance(Ok(()));
    assert_eq!(pass.advance(Err("denied".to_string())), PassStep::RetryAfter(1000));
    assert_eq!(pass.advance(Ok(())), PassStep::Finished(Ok(())));
    let mut pass = replace(true, false);
    pass.advance(Ok(()));
    pass.advance(Ok(()));
    for _ in 0..2 {
        assert_eq!(pass.advance(Err("denied".to_string())), PassStep::RetryAfter(1000));
    }
    assert_eq!(
        pass.advance(Err("denied".to_string())),
        PassStep::Finished(Err(ReplaceError::SetIntegrityLevel(Failure {
            attempts: 3,
            cause: "denied".to_string()
        })))
    );
}
