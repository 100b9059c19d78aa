use nanoleaf_notifier::github::{PollError, PollOutcome, ProtocolError};
use nanoleaf_notifier::nanoleaf::{
    alert_command, AnimType, ColorType, EffectCommand, NanoleafClient, ShapeType, HSB,
};
use nanoleaf_notifier::poll_loop::{next_step, LoopStep};

#[test]
fn three_failures_keep_polling_without_alerts() {
    let failures = [
        Err(PollError::Transport),
        Err(PollError::Protocol(ProtocolError::MalformedInterval)),
        Err(PollError::Transport),
    ];
    for f in failures.iter() {
        assert_eq!(next_step(f), LoopStep { trigger_alert: false, sleep_secs: 20 });
    }
}

#[test]
fn alert_only_when_items_pending() {
    let some = Ok(PollOutcome { item_count: 3, next_interval_secs: 45 });
    let none = Ok(PollOutcome { item_count: 0, next_interval_secs: 60 });
    assert_eq!(next_step(&some), LoopStep { trigger_alert: true, sleep_secs: 45 });
    assert_eq!(next_step(&none), LoopStep { trigger_alert: false, sleep_secs: 60 });
}

#[test]
fn alert_command_is_short_solid_display() {
    let c = alert_command();
    match c.write {
        EffectCommand::DisplayTemp { duration, anim_type, palette, color_type } => {
            assert_eq!(duration, 5);
            assert_eq!(anim_type, AnimType::Solid);
            assert_eq!(palette, vec![HSB { hue: 10, saturation: 100, brightness: 100 }]);
            assert_eq!(color_type, ColorType::HSB);
        }
    }
}

#[test]
fn device_urls() {
    let nl = NanoleafClient::new("KEY", "http://10.0.0.2:16021/api/v1");
    assert_eq!(nl.info_url(), "http://10.0.0.2:16021/api/v1/KEY");
    assert_eq!(nl.effects_url(), "http://10.0.0.2:16021/api/v1/KEY/effects");
    assert_eq!(nl.effect_select_url(), "http://10.0.0.2:16021/api/v1/KEY/effects/select");
    assert_eq!(nl.state_url(), "http://10.0.0.2:16021/api/v1/KEY/state");
}

#[test]
fn shape_codes_round_trip() {
    for s in [ShapeType::Hexagon, ShapeType::Triangle, ShapeType::MiniTriangle, ShapeType::ShapesController] {
        assert_eq!(ShapeType::from_code(s.code()), Some(s));
    }
    assert_eq!(ShapeType::Hexagon.code(), 7);
    assert_eq!(ShapeType::ShapesController.code(), 12);
    assert_eq!(ShapeType::from_code(10), None);
    assert_eq!(ShapeType::from_code(0), None);
}
