use camera_tethering::camera::camera_config::{
    unpack_camera_config, GroupWidget, Widget, WidgetBase,
};
use camera_tethering::camera::config_update::{
    plan_change, ConfigUpdateRun, UpdateEvent, UpdatePhase, UpdateRequest, WidgetChange, WidgetKind,
};
use camera_tethering::camera::worker::CameraError;
use camera_tethering::text::last_part;
use camera_tethering::websocket::scheme::{
    CameraConfig, ConfigSetting, ConfigUpdate, ConfigValue, UpdateCameraConfig,
    ValidConfigValueRange, ValidConfigValues,
};

fn base(name: &str) -> WidgetBase {
    WidgetBase {
        name: name.to_string(),
        label: format!("label of {name}"),
        info: "".to_string(),
        readonly: name == "serial",
    }
}

fn group(name: &str, children: Vec<Widget>) -> GroupWidget {
    GroupWidget { name: name.to_string(), children }
}

fn text(name: &str, value: &str) -> Widget {
    Widget::Text { base: base(name), value: value.to_string() }
}

fn range() -> ValidConfigValueRange {
    ValidConfigValueRange {
        min: (-2.0f32).to_bits(),
        max: 2.0f32.to_bits(),
        step: 0.5f32.to_bits(),
    }
}

fn tree() -> GroupWidget {
    group(
        "main",
        vec![
            Widget::Group(group(
                "status",
                vec![
                    text("serial", "0815"),
                    Widget::Date { base: base("date"), timestamp: -7 },
                    Widget::Group(group("inner", vec![Widget::Button { base: base("focus") }])),
                ],
            )),
            Widget::Radio {
                base: base("iso"),
                choice: "100".to_string(),
                choices: vec!["100".to_string(), "200".to_string()],
            },
            Widget::Toggle { base: base("beep"), toggled: Some(true) },
            Widget::Toggle { base: base("flash"), toggled: None },
            Widget::Range { base: base("exposure"), value: 1.5f32.to_bits(), range: range() },
        ],
    )
}

fn setting(config: &CameraConfig, key: &str) -> ConfigSetting {
    config.values.iter().find(|e| e.key == key).unwrap().setting.clone()
}

#[test]
fn every_setting_is_listed_under_its_path() {
    let config = CameraConfig::from(tree());
    let keys: Vec<&str> = config.values.iter().map(|e| e.key.as_str()).collect();
    assert_eq!(
        keys,
        vec![
            "main.beep",
            "main.exposure",
            "main.flash",
            "main.iso",
            "main.status.date",
            "main.status.inner.focus",
            "main.status.serial",
        ]
    );
    for entry in &config.values {
        assert_eq!(last_part(&entry.key, '.'), entry.setting.name);
    }
}

#[test]
fn a_setting_tells_of_its_widget() {
    let config = CameraConfig::from(tree());
    assert_eq!(
        setting(&config, "main.status.serial"),
        ConfigSetting {
            name: "serial".to_string(),
            label: Some("label of serial".to_string()),
            info: None,
            readonly: true,
            value: ConfigValue::Str("0815".to_string()),
            accepted_values: ValidConfigValues::Text,
        }
    );
    assert_eq!(setting(&config, "main.status.date").value, ConfigValue::Int(-7));
    assert_eq!(setting(&config, "main.status.date").accepted_values, ValidConfigValues::Date);
    let focus = setting(&config, "main.status.inner.focus");
    assert_eq!(focus.value, ConfigValue::ButtonPress);
    assert_eq!(focus.accepted_values, ValidConfigValues::ButtonPress);
    assert_eq!(
        setting(&config, "main.iso").accepted_values,
        ValidConfigValues::List(vec!["100".to_string(), "200".to_string()])
    );
    assert_eq!(setting(&config, "main.iso").value, ConfigValue::Str("100".to_string()));
    assert_eq!(setting(&config, "main.beep").value, ConfigValue::Bool(true));
    assert_eq!(setting(&config, "main.flash").value, ConfigValue::Bool(false));
    assert_eq!(setting(&config, "main.exposure").value, ConfigValue::F32(1.5f32.to_bits()));
    assert_eq!(
        setting(&config, "main.exposure").accepted_values,
        ValidConfigValues::Range(range())
    );
}

#[test]
fn of_two_settings_with_one_key_the_later_stays() {
    let config =
        CameraConfig::from(group("main", vec![text("a", "first"), text("a", "second")]));
    assert_eq!(config.values.len(), 1);
    assert_eq!(setting(&config, "main.a").value, ConfigValue::Str("second".to_string()));
}

#[test]
fn a_root_without_a_name_leaves_its_groups_without_a_path() {
    let nested = Widget::Group(group("a", vec![text("b", "x")]));
    let config = CameraConfig::from(group("", vec![nested, text("c", "y")]));
    let keys: Vec<&str> = config.values.iter().map(|e| e.key.as_str()).collect();
    assert_eq!(keys, vec![".c", "a.b"]);
}

#[test]
fn settings_go_on_top_of_those_that_are_there() {
    let mut config = CameraConfig::from(group("main", vec![text("a", "old"), text("b", "old")]));
    unpack_camera_config(group("x", vec![text("c", "new")]), &mut config, "main");
    unpack_camera_config(group("main", vec![text("a", "new")]), &mut config, "");
    let found: Vec<(&str, &ConfigValue)> =
        config.values.iter().map(|e| (e.key.as_str(), &e.setting.value)).collect();
    let new = ConfigValue::Str("new".to_string());
    let old = ConfigValue::Str("old".to_string());
    assert_eq!(found, vec![("main.a", &new), ("main.b", &old), ("main.x.c", &new)]);
}

#[test]
fn a_prefix_lengthens_the_keys() {
    let plain = CameraConfig::from(tree());
    let mut prefixed = CameraConfig::default();
    unpack_camera_config(tree(), &mut prefixed, "cam");
    assert_eq!(plain.values.len(), prefixed.values.len());
    for (short, long) in plain.values.iter().zip(&prefixed.values) {
        assert_eq!(long.key, format!("cam.{}", short.key));
        assert_eq!(long.setting, short.setting);
    }
    let unnamed = || group("", vec![Widget::Group(group("a", vec![text("b", "x")]))]);
    let mut prefixed = CameraConfig::default();
    unpack_camera_config(unnamed(), &mut prefixed, "cam");
    assert_eq!(prefixed.values[0].key, "cam..a.b");
    assert_eq!(CameraConfig::from(unnamed()).values[0].key, "a.b");
}

#[test]
fn a_value_must_fit_its_widget() {
    let str_value = || ConfigValue::Str("v".to_string());
    let misfit = Err(CameraError::InvalidConfigValueType);
    assert_eq!(plan_change(WidgetKind::Group, str_value()), misfit);
    assert_eq!(
        plan_change(WidgetKind::Text, str_value()),
        Ok(WidgetChange::SetText("v".to_string()))
    );
    assert_eq!(plan_change(WidgetKind::Text, ConfigValue::Bool(true)), misfit);
    assert_eq!(
        plan_change(WidgetKind::Range, ConfigValue::F32(2.5f32.to_bits())),
        Ok(WidgetChange::SetRange(2.5f32.to_bits()))
    );
    assert_eq!(plan_change(WidgetKind::Range, ConfigValue::Int(2)), misfit);
    assert_eq!(
        plan_change(WidgetKind::Toggle, ConfigValue::Bool(false)),
        Ok(WidgetChange::SetToggle(false))
    );
    assert_eq!(plan_change(WidgetKind::Toggle, str_value()), misfit);
    assert_eq!(
        plan_change(WidgetKind::Radio, str_value()),
        Ok(WidgetChange::SetChoice("v".to_string()))
    );
    assert_eq!(plan_change(WidgetKind::Radio, ConfigValue::ButtonPress), misfit);
    assert_eq!(
        plan_change(WidgetKind::Button, ConfigValue::ButtonPress),
        Ok(WidgetChange::Press)
    );
    assert_eq!(plan_change(WidgetKind::Button, str_value()), Ok(WidgetChange::Keep));
    assert_eq!(
        plan_change(WidgetKind::Date, ConfigValue::Int(-1)),
        Ok(WidgetChange::SetTimestamp(-1))
    );
    assert_eq!(plan_change(WidgetKind::Date, str_value()), misfit);
}

#[test]
fn a_timestamp_keeps_its_low_bits() {
    for (given, kept) in [
        (0x7fff_ffffi64, i32::MAX),
        (0x8000_0000, i32::MIN),
        (0x1_0000_0005, 5),
        (-0x8000_0001, i32::MAX),
        (i64::MIN, 0),
        (i64::MAX, -1),
    ] {
        assert_eq!(given as i32, kept);
        assert_eq!(
            plan_change(WidgetKind::Date, ConfigValue::Int(given)),
            Ok(WidgetChange::SetTimestamp(kept))
        );
    }
}

fn update(key: &str, value: ConfigValue) -> ConfigUpdate {
    ConfigUpdate { key: key.to_string(), value }
}

fn run_of(config_updates: Vec<ConfigUpdate>) -> ConfigUpdateRun {
    ConfigUpdateRun::new(UpdateCameraConfig { config_updates })
}

fn take(run: &mut ConfigUpdateRun, event: UpdateEvent) {
    assert!(run.expects(&event));
    run.advance(event);
}

#[test]
fn changes_are_made_in_order() {
    let mut run = run_of(vec![
        update("main.iso", ConfigValue::Str("200".to_string())),
        update("beep", ConfigValue::Bool(true)),
    ]);
    assert_eq!(run.request(), UpdateRequest::Fetch("iso"));
    take(&mut run, UpdateEvent::Fetched(Ok(WidgetKind::Radio)));
    assert_eq!(run.request(), UpdateRequest::Apply(&WidgetChange::SetChoice("200".to_string())));
    take(&mut run, UpdateEvent::Done(Ok(())));
    assert_eq!(run.request(), UpdateRequest::Write);
    assert!(!run.expects(&UpdateEvent::Fetched(Ok(WidgetKind::Text))));
    take(&mut run, UpdateEvent::Done(Ok(())));
    assert_eq!(run.request(), UpdateRequest::Fetch("beep"));
    take(&mut run, UpdateEvent::Fetched(Ok(WidgetKind::Toggle)));
    take(&mut run, UpdateEvent::Done(Ok(())));
    take(&mut run, UpdateEvent::Done(Ok(())));
    assert_eq!(run.request(), UpdateRequest::Finish(&Ok(())));
    assert!(!run.expects(&UpdateEvent::Done(Ok(()))));
}

#[test]
fn no_changes_are_made_at_once() {
    assert_eq!(run_of(vec![]).phase, UpdatePhase::Finished(Ok(())));
}

#[test]
fn two_lists_run_one_after_the_other() {
    let first = || vec![update("a", ConfigValue::Bool(true))];
    let second = || vec![update("b", ConfigValue::Bool(false))];
    let made = || {
        [
            UpdateEvent::Fetched(Ok(WidgetKind::Toggle)),
            UpdateEvent::Done(Ok(())),
            UpdateEvent::Done(Ok(())),
        ]
    };
    let mut both = run_of([first(), second()].concat());
    let mut alone = run_of(first());
    for event in made() {
        take(&mut both, event);
    }
    for event in made() {
        take(&mut alone, event);
    }
    assert_eq!(alone.phase, UpdatePhase::Finished(Ok(())));
    assert_eq!(both, run_of(second()));
    let mut both = run_of([first(), second()].concat());
    take(&mut both, UpdateEvent::Fetched(Err(CameraError::NotConnected)));
    assert_eq!(both.phase, UpdatePhase::Finished(Err(CameraError::NotConnected)));
    assert_eq!(both.remaining, [first(), second()].concat());
}

#[test]
fn a_misfit_ends_the_changes() {
    let mut run = run_of(vec![
        update("a", ConfigValue::Str("x".to_string())),
        update("b", ConfigValue::Bool(true)),
        update("c", ConfigValue::Bool(true)),
    ]);
    take(&mut run, UpdateEvent::Fetched(Ok(WidgetKind::Text)));
    take(&mut run, UpdateEvent::Done(Ok(())));
    take(&mut run, UpdateEvent::Done(Ok(())));
    take(&mut run, UpdateEvent::Fetched(Ok(WidgetKind::Date)));
    assert_eq!(run.phase, UpdatePhase::Finished(Err(CameraError::InvalidConfigValueType)));
    assert!(!run.expects(&UpdateEvent::Done(Ok(()))));
}

#[test]
fn an_error_of_the_camera_ends_the_changes() {
    let error = || CameraError::Gphoto2Error("gone".to_string());
    let fresh = || run_of(vec![update("a", ConfigValue::Str("x".to_string()))]);
    let mut run = fresh();
    take(&mut run, UpdateEvent::Fetched(Err(error())));
    assert_eq!(run.request(), UpdateRequest::Finish(&Err(error())));
    let mut run = fresh();
    take(&mut run, UpdateEvent::Fetched(Ok(WidgetKind::Text)));
    take(&mut run, UpdateEvent::Done(Err(error())));
    assert_eq!(run.phase, UpdatePhase::Finished(Err(error())));
    let mut run = fresh();
    take(&mut run, UpdateEvent::Fetched(Ok(WidgetKind::Text)));
    take(&mut run, UpdateEvent::Done(Ok(())));
    take(&mut run, UpdateEvent::Done(Err(error())));
    assert_eq!(run.phase, UpdatePhase::Finished(Err(error())));
}

#[test]
fn listed_values_can_be_given_back() {
    let config = CameraConfig::from(tree());
    let given = |key: &str, kind: WidgetKind| plan_change(kind, setting(&config, key).value);
    assert_eq!(
        given("main.status.serial", WidgetKind::Text),
        Ok(WidgetChange::SetText("0815".to_string()))
    );
    assert_eq!(
        given("main.status.date", WidgetKind::Date),
        Ok(WidgetChange::SetTimestamp(-7))
    );
    assert_eq!(given("main.status.inner.focus", WidgetKind::Button), Ok(WidgetChange::Press));
    assert_eq!(
        given("main.iso", WidgetKind::Radio),
        Ok(WidgetChange::SetChoice("100".to_string()))
    );
    assert_eq!(given("main.flash", WidgetKind::Toggle), Ok(WidgetChange::SetToggle(false)));
    assert_eq!(
        given("main.exposure", WidgetKind::Range),
        Ok(WidgetChange::SetRange(1.5f32.to_bits()))
    );
}
