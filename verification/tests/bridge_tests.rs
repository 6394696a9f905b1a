use hush_transport::bridge::InitPlan;
use hush_transport::bridge::RoutingMode;
use hush_transport::bridge::TaiorConfig;
use hush_transport::bridge::TaiorState;
use hush_transport::bridge::select_routing_mode;
use hush_transport::errors::TransportError;
use hush_transport::wire::RoutedPacket;
use hush_transport::wire::encode_frame;

fn initialized_bridge() -> TaiorState {
    let mut bridge = TaiorState::new();
    bridge.taior_init(&TaiorConfig {
        bootstrap_nodes: Vec::new(),
    });
    bridge
}

#[test]
fn every_mode_token_maps_to_its_policy() {
    assert_eq!(select_routing_mode("fast"), Ok(RoutingMode::Fast));
    assert_eq!(select_routing_mode("mix"), Ok(RoutingMode::Mix));
    assert_eq!(select_routing_mode("reinforced"), Ok(RoutingMode::Mix));
    assert_eq!(select_routing_mode("adaptive"), Ok(RoutingMode::Adaptive));
}

#[test]
fn unknown_tokens_are_refused() {
    assert_eq!(
        select_routing_mode("turbo"),
        Err(TransportError::InvalidRoutingMode)
    );
    assert_eq!(
        select_routing_mode(""),
        Err(TransportError::InvalidRoutingMode)
    );
    // Matching is exact: case differences are not recognized.
    assert_eq!(
        select_routing_mode("Fast"),
        Err(TransportError::InvalidRoutingMode)
    );
}

#[test]
fn reinforced_and_mix_share_policy_and_frame() {
    let by_alias = select_routing_mode("reinforced").unwrap();
    let by_name = select_routing_mode("mix").unwrap();
    assert_eq!(by_alias, by_name);
    // Given the same engine output, the two sends serialize to
    // structurally identical wire frames.
    let packet = RoutedPacket {
        encrypted_payload: vec![0xde, 0xad, 0xbe, 0xef],
        ikm: vec![0x10, 0x20],
    };
    let frame_for_alias = encode_frame(&packet);
    let frame_for_name = encode_frame(&packet);
    assert_eq!(frame_for_alias, frame_for_name);
}

#[test]
fn send_before_init_fails_not_initialized() {
    let bridge = TaiorState::new();
    assert_eq!(
        bridge.taior_send("fast"),
        Err(TransportError::NotInitialized)
    );
}

#[test]
fn send_after_init_hands_back_the_policy() {
    let bridge = initialized_bridge();
    assert_eq!(bridge.taior_send("adaptive"), Ok(RoutingMode::Adaptive));
}

#[test]
fn unknown_token_fails_before_the_engine_with_no_side_effects() {
    let bridge = initialized_bridge();
    let before = bridge.cover_traffic_state();
    assert_eq!(
        bridge.taior_send("turbo"),
        Err(TransportError::InvalidRoutingMode)
    );
    // No partial frame exists and the cover-traffic state is untouched.
    assert_eq!(bridge.cover_traffic_state(), before);
}

#[test]
fn init_plan_follows_the_bootstrap_list() {
    let mut bridge = TaiorState::new();
    let plan = bridge.taior_init(&TaiorConfig {
        bootstrap_nodes: Vec::new(),
    });
    assert_eq!(plan, InitPlan::Fresh);

    let mut seeded = TaiorState::new();
    let plan = seeded.taior_init(&TaiorConfig {
        bootstrap_nodes: vec!["node1.example:4433".to_string()],
    });
    assert_eq!(plan, InitPlan::WithBootstrap);
}

#[test]
fn address_is_gated_on_init() {
    let bridge = TaiorState::new();
    assert_eq!(
        bridge.taior_address(),
        Err(TransportError::NotInitialized)
    );
    assert_eq!(initialized_bridge().taior_address(), Ok(()));
}

#[test]
fn cover_traffic_requires_init_and_stores_verbatim() {
    let mut bridge = TaiorState::new();
    assert_eq!(
        bridge.taior_enable_cover_traffic(true, 0.5f32.to_bits()),
        Err(TransportError::NotInitialized)
    );
    assert_eq!(bridge.cover_traffic_state(), (false, 0));

    let mut bridge = initialized_bridge();
    let ratio_bits = 0.3f32.to_bits();
    assert_eq!(bridge.taior_enable_cover_traffic(true, ratio_bits), Ok(()));
    let (enabled, stored_bits) = bridge.cover_traffic_state();
    assert!(enabled);
    // The ratio is forwarded and stored bit-for-bit.
    assert_eq!(f32::from_bits(stored_bits), 0.3f32);
}

#[test]
fn fresh_bridge_has_cover_traffic_off() {
    let bridge = TaiorState::new();
    assert_eq!(bridge.cover_traffic_state(), (false, 0));
    assert_eq!(f32::from_bits(0), 0.0f32);
}
