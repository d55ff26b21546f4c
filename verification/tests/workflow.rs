use school::{
    handler, initialize_school, CreateNFTParams, LedgerError, MetadataError, MintError,
    MintStatus, NFTError, RateLimit, RATE_LIMIT_COUNT,
};

fn valid_props() -> CreateNFTParams {
    CreateNFTParams {
        name: "Algebra Credential".to_string(),
        symbol: "ALG".to_string(),
        uri: "https://example.org/algebra".to_string(),
    }
}

fn drive_to_completion(st: MintStatus) -> MintStatus {
    assert_eq!(st, MintStatus::AwaitLedger);
    let st = st.on_ledger_result(Ok(()));
    assert_eq!(st, MintStatus::AwaitMetadata);
    let st = st.on_metadata_result(Ok(()));
    assert_eq!(st, MintStatus::AwaitEdition);
    let st = st.on_edition_result(Ok(()));
    assert_eq!(st, MintStatus::Completed);
    st
}

#[test]
fn end_to_end_five_mints_then_throttled() {
    let s = initialize_school(
        [1; 32],
        10,
        "Springfield High".to_string(),
        "HighSchool".to_string(),
        3,
        254,
    )
    .unwrap();
    assert_eq!(s.calculate_enrollment_fees(), Ok(30_000_000));

    let mut rl = RateLimit::new(0);
    for i in 0..RATE_LIMIT_COUNT {
        let st = handler(&mut rl, 100 + i as i64, &valid_props());
        drive_to_completion(st);
        assert_eq!(rl.mint_count, i + 1);
    }
    let before = rl;
    let st = handler(&mut rl, 100 + RATE_LIMIT_COUNT as i64, &valid_props());
    // the request never reaches AwaitLedger, so neither the token ledger
    // nor the metadata service is called on the throttled attempt
    assert_eq!(
        st,
        MintStatus::Failed(MintError::Rejected(NFTError::RateLimitExceeded))
    );
    assert_eq!(rl, before);
}

#[test]
fn rejected_attributes_leave_the_rate_limit_untouched() {
    let mut rl = RateLimit::new(0);
    let st = handler(
        &mut rl,
        100,
        &CreateNFTParams {
            name: "".to_string(),
            symbol: "ALG".to_string(),
            uri: "https://example.org/a".to_string(),
        },
    );
    assert_eq!(
        st,
        MintStatus::Failed(MintError::Rejected(NFTError::EmptyAttribute))
    );
    assert_eq!(rl.mint_count, 0);
    assert_eq!(rl.last_mint_time, 0);

    let st = handler(
        &mut rl,
        100,
        &CreateNFTParams {
            name: "Algebra".to_string(),
            symbol: "ALG".to_string(),
            uri: "http://example.org/a".to_string(),
        },
    );
    assert_eq!(
        st,
        MintStatus::Failed(MintError::Rejected(NFTError::InvalidURI))
    );
    assert_eq!(rl.mint_count, 0);
}

#[test]
fn admitted_request_records_the_mint() {
    let mut rl = RateLimit::new(0);
    let st = handler(&mut rl, 42, &valid_props());
    assert_eq!(st, MintStatus::AwaitLedger);
    assert_eq!(rl.mint_count, 1);
    assert_eq!(rl.last_mint_time, 42);
}

#[test]
fn a_fresh_window_admits_a_throttled_authority_again() {
    let mut rl = RateLimit::new(0);
    for i in 0..RATE_LIMIT_COUNT {
        let st = handler(&mut rl, 100 + i as i64, &valid_props());
        drive_to_completion(st);
    }
    let last = rl.last_mint_time;
    let st = handler(&mut rl, last + school::RATE_LIMIT_PERIOD, &valid_props());
    assert_eq!(st, MintStatus::AwaitLedger);
    assert_eq!(rl.mint_count, 1);
}

#[test]
fn ledger_failure_aborts_the_request() {
    let mut rl = RateLimit::new(0);
    let st = handler(&mut rl, 7, &valid_props());
    assert_eq!(st, MintStatus::AwaitLedger);
    let st = st.on_ledger_result(Err(LedgerError));
    assert_eq!(st, MintStatus::Failed(MintError::Ledger(LedgerError)));
}

#[test]
fn metadata_failure_aborts_the_request() {
    let mut rl = RateLimit::new(0);
    let st = handler(&mut rl, 7, &valid_props());
    let st = st.on_ledger_result(Ok(()));
    let st = st.on_metadata_result(Err(MetadataError));
    assert_eq!(st, MintStatus::Failed(MintError::Metadata(MetadataError)));
}

#[test]
fn edition_failure_aborts_the_request() {
    let mut rl = RateLimit::new(0);
    let st = handler(&mut rl, 7, &valid_props());
    let st = st.on_ledger_result(Ok(()));
    let st = st.on_metadata_result(Ok(()));
    let st = st.on_edition_result(Err(MetadataError));
    assert_eq!(st, MintStatus::Failed(MintError::Metadata(MetadataError)));
}
