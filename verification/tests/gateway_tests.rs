use everclear_spoke::gateway::{
    initialize_gateway, pause, send_message, unpause, CustomError, SpokeGatewayState,
};

fn blank_gateway() -> SpokeGatewayState {
    SpokeGatewayState {
        owner: [0; 32],
        mailbox: [0; 32],
        receiver: [0; 32],
        interchain_security_module: [0; 32],
        everclear_id: 0,
        everclear_gateway: [0; 32],
        paused: false,
    }
}

#[test]
fn gateway_initialization_validates_every_identity() {
    let mut state = blank_gateway();
    assert_eq!(
        initialize_gateway(&mut state, [0; 32], [2; 32], [3; 32], [4; 32], 1234, [5; 32]).err(),
        Some(CustomError::InvalidOwner)
    );
    assert_eq!(
        initialize_gateway(&mut state, [1; 32], [0; 32], [3; 32], [4; 32], 1234, [5; 32]).err(),
        Some(CustomError::InvalidMailbox)
    );
    assert_eq!(
        initialize_gateway(&mut state, [1; 32], [2; 32], [0; 32], [4; 32], 1234, [5; 32]).err(),
        Some(CustomError::InvalidReceiver)
    );
    assert_eq!(
        initialize_gateway(&mut state, [1; 32], [2; 32], [3; 32], [0; 32], 1234, [5; 32]).err(),
        Some(CustomError::InvalidSecurityModule)
    );
    assert_eq!(
        initialize_gateway(&mut state, [1; 32], [2; 32], [3; 32], [4; 32], 0, [5; 32]).err(),
        Some(CustomError::InvalidEverclearId)
    );

    assert!(initialize_gateway(&mut state, [1; 32], [2; 32], [3; 32], [4; 32], 1234, [5; 32])
        .is_ok());
    assert_eq!(state.owner, [1; 32]);
    assert_eq!(state.mailbox, [2; 32]);
    assert_eq!(state.receiver, [3; 32]);
    assert_eq!(state.interchain_security_module, [4; 32]);
    assert_eq!(state.everclear_id, 1234);
    assert_eq!(state.everclear_gateway, [5; 32]);
    assert!(!state.paused);
}

#[test]
fn gateway_pause_switch_is_owner_gated() {
    let mut state = blank_gateway();
    initialize_gateway(&mut state, [1; 32], [2; 32], [3; 32], [4; 32], 1234, [5; 32]).unwrap();

    assert_eq!(pause(&mut state, &[9; 32]).err(), Some(CustomError::Unauthorized));
    assert_eq!(unpause(&mut state, &[1; 32]).err(), Some(CustomError::NotPaused));
    assert!(pause(&mut state, &[1; 32]).is_ok());
    assert!(state.paused);
    assert_eq!(pause(&mut state, &[1; 32]).err(), Some(CustomError::AlreadyPaused));
    assert!(unpause(&mut state, &[1; 32]).is_ok());
    assert!(!state.paused);
}

#[test]
fn gateway_validates_outbound_messages() {
    let mut state = blank_gateway();
    initialize_gateway(&mut state, [1; 32], [2; 32], [3; 32], [4; 32], 1234, [5; 32]).unwrap();

    assert!(send_message(&state, 1234, [5; 32], &vec![1, 2, 3]).is_ok());
    assert_eq!(
        send_message(&state, 1234, [5; 32], &vec![]).err(),
        Some(CustomError::EmptyMessage)
    );
    assert_eq!(
        send_message(&state, 1234, [5; 32], &vec![0; 10_241]).err(),
        Some(CustomError::MessageTooLarge)
    );
    pause(&mut state, &[1; 32]).unwrap();
    assert_eq!(
        send_message(&state, 1234, [5; 32], &vec![1]).err(),
        Some(CustomError::GatewayPaused)
    );
}
