use crystal_runtime::{
    ArchiveEndian, CGameArchive, ChangeRequest, CoopManager, DataModel, Field, Fixed, InputName,
    InputState, KeyCode, MouseButton, NamedKey, SceneObject, SceneTable, ScriptError, ScriptValue,
    Vec3F, WaitStep, WriteOutcome,
};
use crystal_runtime::input::parse_input_name;
use crystal_runtime::manager::{
    aggregate_outcomes, extract_script_source, run_changes, script_entries, TickOutcome,
};
use crystal_runtime::sandbox::{
    apply_script_write, clamp_wait, color_from_channels, color_to_channels, wait_step,
};
use crystal_runtime::scene::lights_from_objects;

fn object(name: &str) -> SceneObject {
    SceneObject::named(name.to_string())
}

fn vec3(x: i64, y: i64, z: i64) -> Vec3F {
    Vec3F::new(Fixed::from_units(x), Fixed::from_units(y), Fixed::from_units(z))
}

#[test]
fn parses_named_and_character_keys() {
    assert_eq!(
        KeyCode::from_name("Space"),
        Some(KeyCode::Named(NamedKey::Space))
    );
    assert_eq!(KeyCode::from_name("a"), Some(KeyCode::Character('A')));
    assert_eq!(KeyCode::from_name("F12"), Some(KeyCode::Function(12)));
}

#[test]
fn mouse_names_are_supported() {
    assert_eq!(mouse_index("Mouse1"), 0);
    assert_eq!(mouse_index("mouse3"), 2);
}

fn mouse_index(name: &str) -> u8 {
    match parse_input_name(name).unwrap() {
        InputName::Mouse(button) => button.index(),
        InputName::Key(_) => panic!("expected mouse button"),
    }
}

#[test]
fn input_state_tracks_keys() {
    let state = InputState::new();
    state.set_key_down(KeyCode::Named(NamedKey::Space));
    assert!(state.is_key_down_by_name("Space"));
    state.set_key_up(KeyCode::Named(NamedKey::Space));
    assert!(!state.is_key_down_by_name("Space"));
}

#[test]
fn unknown_input_names_are_false() {
    let state = InputState::new();
    state.set_mouse_button_down(MouseButton::new(1));
    assert!(state.is_key_down_by_name("Mouse2"));
    assert!(!state.is_key_down_by_name("Unknown"));
    assert!(!state.is_key_down_by_name(""));
    assert!(!state.is_key_down_by_name("F26"));
}

#[test]
fn replace_and_get_object() {
    let model = DataModel::from_objects(vec![object("Cube")]);
    assert!(model.get("Cube").is_some());
    model.replace_objects(vec![object("Sphere")]);
    assert!(model.get("Cube").is_none());
    assert!(model.get("Sphere").is_some());
}

#[test]
fn update_modifies_object() {
    let model = DataModel::from_objects(vec![object("Camera")]);
    model.set_fov("Camera", Fixed::from_units(60));
    let cam = model.get("Camera").unwrap();
    assert_eq!(cam.fov.micros, 60_000_000);
}

#[test]
fn update_returns_false_for_missing_object() {
    let model = DataModel::new();
    assert!(!model.set_color("Unknown", vec3(1, 1, 1)));
}

#[test]
fn color_round_trip_is_close() {
    // An exact power case: channel 255 stores as exactly one unit.
    let stored = color_from_channels(
        Fixed::from_units(255),
        Fixed::from_units(0),
        Fixed::from_units(0),
    );
    assert_eq!(stored.x.micros, 1_000_000);
    assert_eq!(stored.y.micros, 0);
    let back = color_to_channels(stored);
    assert_eq!(back.x.micros, 255_000_000);

    // A channel that does not divide evenly comes back within 1/255.
    let stored = color_from_channels(
        Fixed::from_units(128),
        Fixed::from_units(64),
        Fixed::from_units(7),
    );
    let back = color_to_channels(stored);
    for (channel, original) in [(back.x, 128_000_000i64), (back.y, 64_000_000), (back.z, 7_000_000)]
    {
        let diff = (original - channel.micros).abs();
        assert!(diff * 255 <= 1_000_000, "difference {diff} too large");
    }
}

#[test]
fn script_write_lands_in_store() {
    let mut table = SceneTable::from_objects(vec![object("Cube")]);
    let outcome = apply_script_write(
        &mut table,
        "Cube",
        Field::Position,
        ScriptValue::Vector3(vec3(1, 2, 3)),
        true,
    );
    assert_eq!(outcome, WriteOutcome::Applied);
    let cube = table.get("Cube").unwrap();
    assert_eq!(cube.position, vec3(1, 2, 3));
}

#[test]
fn unknown_object_write_changes_nothing() {
    let mut table = SceneTable::from_objects(vec![object("Cube")]);
    let before = table.get("Cube").unwrap();
    let outcome = apply_script_write(
        &mut table,
        "Sphere",
        Field::Position,
        ScriptValue::Vector3(vec3(1, 2, 3)),
        true,
    );
    assert_eq!(outcome, WriteOutcome::UnknownObject);
    let after = table.get("Cube").unwrap();
    assert_eq!(after.position, before.position);
}

#[test]
fn malformed_write_is_dropped_silently() {
    let mut table = SceneTable::from_objects(vec![object("Cube")]);
    let outcome = apply_script_write(
        &mut table,
        "Cube",
        Field::Position,
        ScriptValue::Scalar(Fixed::from_units(4)),
        true,
    );
    assert_eq!(outcome, WriteOutcome::Ignored);
    let outcome = apply_script_write(
        &mut table,
        "Cube",
        Field::Fov,
        ScriptValue::Unrecognized,
        true,
    );
    assert_eq!(outcome, WriteOutcome::Ignored);
    let cube = table.get("Cube").unwrap();
    assert_eq!(cube.position, vec3(0, 0, 0));
    assert_eq!(cube.fov.micros, 45_000_000);
}

#[test]
fn stopped_session_refuses_writes() {
    let mut table = SceneTable::from_objects(vec![object("Cube")]);
    let outcome = apply_script_write(
        &mut table,
        "Cube",
        Field::Intensity,
        ScriptValue::Scalar(Fixed::from_units(3)),
        false,
    );
    assert_eq!(outcome, WriteOutcome::Stopped);
    assert_eq!(table.get("Cube").unwrap().intensity.micros, 1_000_000);
}

#[test]
fn wait_observes_stop_within_one_slice() {
    // A stop request mid-wait surfaces as the distinguished cancellation.
    assert_eq!(wait_step(20, false), WaitStep::Cancelled);
    // Slices are bounded, so the flag is rechecked every few milliseconds.
    assert_eq!(wait_step(25, true), WaitStep::Sleep { slice: 10, remaining: 15 });
    assert_eq!(wait_step(7, true), WaitStep::Sleep { slice: 7, remaining: 0 });
    // A zero wait is a fairness yield, not a suspension.
    assert_eq!(wait_step(0, false), WaitStep::Finished);
    assert_eq!(clamp_wait(None), 0);
    assert_eq!(clamp_wait(Some(-5)), 0);
    assert_eq!(clamp_wait(Some(20)), 20);
}

#[test]
fn cancellation_is_a_clean_stop() {
    let outcomes: Vec<Result<(), ScriptError>> = vec![
        Ok(()),
        Err(ScriptError::Cancelled),
        Err(ScriptError::Cancelled),
    ];
    assert!(aggregate_outcomes(&outcomes).is_ok());

    let outcomes: Vec<Result<(), ScriptError>> = vec![
        Err(ScriptError::Runtime("first bad".to_string())),
        Err(ScriptError::Cancelled),
        Err(ScriptError::Source("second bad".to_string())),
    ];
    let joined = aggregate_outcomes(&outcomes).unwrap_err();
    assert_eq!(joined, "first bad; second bad");
}

#[test]
fn zero_scripts_launch_leaves_manager_idle() {
    let mut manager = CoopManager::new();
    let launched = manager.start(Vec::new());
    assert_eq!(launched, 0);
    assert!(!manager.is_running());
    manager.stop();
    assert!(!manager.is_running());
    assert_eq!(manager.script_count(), 0);
}

fn build_script_archive(script: &str) -> CGameArchive {
    let scene = "<scene></scene>";
    let mut buffer = Vec::new();
    buffer.extend_from_slice(b"CGME");
    buffer.extend_from_slice(&ArchiveEndian::Little.encode_u32(1));
    buffer.extend_from_slice(&ArchiveEndian::Little.encode_u64(0));
    let script_offset = buffer.len() as u64;
    buffer.extend_from_slice(script.as_bytes());
    let scene_offset = buffer.len() as u64;
    buffer.extend_from_slice(scene.as_bytes());
    let toc_offset = buffer.len() as u64;
    buffer.extend_from_slice(&ArchiveEndian::Little.encode_u32(1));
    buffer.extend_from_slice(&ArchiveEndian::Little.encode_u32("scripts/test.lua".len() as u32));
    buffer.extend_from_slice(b"scripts/test.lua");
    buffer.extend_from_slice(&ArchiveEndian::Little.encode_u64(script_offset));
    buffer.extend_from_slice(&ArchiveEndian::Little.encode_u64(script.len() as u64));
    buffer.extend_from_slice(&ArchiveEndian::Little.encode_u64(scene_offset));
    buffer.extend_from_slice(&ArchiveEndian::Little.encode_u64(scene.len() as u64));
    let toc_bytes = ArchiveEndian::Little.encode_u64(toc_offset);
    buffer[8..16].copy_from_slice(&toc_bytes);
    CGameArchive::from_bytes("test".to_string(), buffer).expect("open archive")
}

#[test]
fn script_sets_color_and_exits() {
    // One script under the reserved prefix; it writes (255, 0, 0) and ends.
    let archive = build_script_archive("cube.color = Color3.new(255, 0, 0)");
    let entries = script_entries(archive.files());
    assert_eq!(entries.len(), 1);

    let mut manager = CoopManager::new();
    let mut sources = Vec::new();
    for entry in &entries {
        let source = extract_script_source(&archive, &entry.name).expect("script source");
        sources.push((entry.name.clone(), source));
    }
    let launched = manager.start(sources);
    assert_eq!(launched, 1);
    assert!(manager.is_running());

    let mut table = SceneTable::from_objects(vec![object("Cube")]);
    let changes = vec![ChangeRequest {
        object: "Cube".to_string(),
        field: Field::Color,
        value: ScriptValue::Color3(color_from_channels(
            Fixed::from_units(255),
            Fixed::from_units(0),
            Fixed::from_units(0),
        )),
    }];
    let outcome = manager.tick(&mut table, 0, &changes, true);
    assert_eq!(outcome, TickOutcome::Completed);
    assert!(!manager.is_running());

    let cube = table.get("Cube").unwrap();
    assert_eq!(cube.color, vec3(1, 0, 0));
}

#[test]
fn stop_abandons_a_looping_script() {
    // A script that waits forever: every tick reports more waiting. A stop
    // request must end the session and block any further mutation.
    let mut manager = CoopManager::new();
    let launched =
        manager.start(vec![("scripts/loop.lua".to_string(), "while true do wait(20) end".to_string())]);
    assert_eq!(launched, 1);

    let mut table = SceneTable::from_objects(vec![object("Cube")]);
    for _ in 0..10 {
        let outcome = manager.tick(&mut table, 0, &Vec::new(), false);
        assert_eq!(outcome, TickOutcome::Suspended);
    }
    manager.stop();
    assert!(!manager.is_running());

    let before = table.get("Cube").unwrap();
    let changes = vec![ChangeRequest {
        object: "Cube".to_string(),
        field: Field::Position,
        value: ScriptValue::Vector3(vec3(9, 9, 9)),
    }];
    let outcome = manager.tick(&mut table, 0, &changes, false);
    assert_eq!(outcome, TickOutcome::Abandoned);
    let after = table.get("Cube").unwrap();
    assert_eq!(after.position, before.position);
}

#[test]
fn coop_ticks_apply_through_the_shared_store() {
    // The cooperative host applies a tick against the shared model by
    // taking its write lock for the duration of the tick.
    let model = DataModel::from_objects(vec![object("Cube")]);
    let mut manager = CoopManager::new();
    manager.start(vec![("scripts/a.lua".to_string(), "x".to_string())]);

    let changes = vec![ChangeRequest {
        object: "Cube".to_string(),
        field: Field::Intensity,
        value: ScriptValue::Scalar(Fixed::from_units(2)),
    }];
    let (mut table, handle) = model.begin_write();
    let outcome = manager.tick(&mut table, 0, &changes, true);
    handle.release_write(table);
    assert_eq!(outcome, TickOutcome::Completed);
    assert_eq!(model.get("Cube").unwrap().intensity.micros, 2_000_000);
}

#[test]
fn unknown_object_in_tick_fails_the_script() {
    let mut manager = CoopManager::new();
    manager.start(vec![("scripts/a.lua".to_string(), "x".to_string())]);
    let mut table = SceneTable::from_objects(vec![object("Cube")]);
    let changes = vec![
        ChangeRequest {
            object: "Cube".to_string(),
            field: Field::Fov,
            value: ScriptValue::Scalar(Fixed::from_units(90)),
        },
        ChangeRequest {
            object: "Ghost".to_string(),
            field: Field::Fov,
            value: ScriptValue::Scalar(Fixed::from_units(30)),
        },
    ];
    let outcome = manager.tick(&mut table, 0, &changes, false);
    assert_eq!(outcome, TickOutcome::Failed);
    assert!(!manager.is_running());
    // The change before the failure stays applied.
    assert_eq!(table.get("Cube").unwrap().fov.micros, 90_000_000);
}

#[test]
fn run_changes_drops_malformed_entries() {
    let mut table = SceneTable::from_objects(vec![object("Cube")]);
    let changes = vec![
        ChangeRequest {
            object: "Cube".to_string(),
            field: Field::Position,
            value: ScriptValue::Unrecognized,
        },
        ChangeRequest {
            object: "Cube".to_string(),
            field: Field::Scale,
            value: ScriptValue::Vector3(vec3(2, 2, 2)),
        },
    ];
    assert!(run_changes(&mut table, &changes).is_ok());
    let cube = table.get("Cube").unwrap();
    assert_eq!(cube.position, vec3(0, 0, 0));
    assert_eq!(cube.scale, vec3(2, 2, 2));
}

#[test]
fn script_entries_filters_by_prefix() {
    let archive = build_script_archive("x");
    let entries = script_entries(archive.files());
    assert_eq!(entries.len(), 1);
    assert_eq!(entries[0].name, "scripts/test.lua");

    let model_archive = {
        let mut buffer = Vec::new();
        let scene = "<scene></scene>";
        buffer.extend_from_slice(b"CGME");
        buffer.extend_from_slice(&ArchiveEndian::Little.encode_u32(1));
        buffer.extend_from_slice(&ArchiveEndian::Little.encode_u64(0));
        let data_offset = buffer.len() as u64;
        buffer.extend_from_slice(b"zz");
        let scene_offset = buffer.len() as u64;
        buffer.extend_from_slice(scene.as_bytes());
        let toc_offset = buffer.len() as u64;
        buffer.extend_from_slice(&ArchiveEndian::Little.encode_u32(1));
        buffer.extend_from_slice(&ArchiveEndian::Little.encode_u32("models/cube.obj".len() as u32));
        buffer.extend_from_slice(b"models/cube.obj");
        buffer.extend_from_slice(&ArchiveEndian::Little.encode_u64(data_offset));
        buffer.extend_from_slice(&ArchiveEndian::Little.encode_u64(2));
        buffer.extend_from_slice(&ArchiveEndian::Little.encode_u64(scene_offset));
        buffer.extend_from_slice(&ArchiveEndian::Little.encode_u64(scene.len() as u64));
        let toc_bytes = ArchiveEndian::Little.encode_u64(toc_offset);
        buffer[8..16].copy_from_slice(&toc_bytes);
        CGameArchive::from_bytes("t".to_string(), buffer).expect("open archive")
    };
    assert_eq!(script_entries(model_archive.files()).len(), 0);
}

#[test]
fn lights_follow_light_tagged_objects() {
    let mut light = object("Sun");
    light.object_type = "light".to_string();
    light.intensity = Fixed::from_units(3);
    let objects = vec![object("Cube"), light];
    let lights = lights_from_objects(&objects);
    assert_eq!(lights.len(), 1);
    assert_eq!(lights[0].intensity.micros, 3_000_000);
}

#[test]
fn snapshot_preserves_order() {
    let model = DataModel::from_objects(vec![object("A"), object("B"), object("C")]);
    let names: Vec<String> = model.all_objects().into_iter().map(|o| o.name).collect();
    assert_eq!(names, vec!["A", "B", "C"]);
    assert_eq!(model.names(), vec!["A", "B", "C"]);
}

#[test]
fn independent_writes_both_land() {
    let model = DataModel::from_objects(vec![object("A"), object("B")]);
    assert!(model.set_position("A", vec3(1, 0, 0)));
    assert!(model.set_scale("B", vec3(2, 2, 2)));
    assert_eq!(model.get("A").unwrap().position, vec3(1, 0, 0));
    assert_eq!(model.get("B").unwrap().scale, vec3(2, 2, 2));
}

#[test]
fn last_writer_wins_on_same_field() {
    let model = DataModel::from_objects(vec![object("A")]);
    assert!(model.set_position("A", vec3(1, 0, 0)));
    assert!(model.set_position("A", vec3(0, 1, 0)));
    assert_eq!(model.get("A").unwrap().position, vec3(0, 1, 0));
}

#[test]
fn non_utf8_script_source_is_fatal_for_that_script() {
    let mut buffer = Vec::new();
    let scene = "<scene></scene>";
    buffer.extend_from_slice(b"CGME");
    buffer.extend_from_slice(&ArchiveEndian::Little.encode_u32(1));
    buffer.extend_from_slice(&ArchiveEndian::Little.encode_u64(0));
    let script_offset = buffer.len() as u64;
    buffer.extend_from_slice(&[0xff, 0xfe, 0xfd]);
    let scene_offset = buffer.len() as u64;
    buffer.extend_from_slice(scene.as_bytes());
    let toc_offset = buffer.len() as u64;
    buffer.extend_from_slice(&ArchiveEndian::Little.encode_u32(1));
    buffer.extend_from_slice(&ArchiveEndian::Little.encode_u32("scripts/bad.lua".len() as u32));
    buffer.extend_from_slice(b"scripts/bad.lua");
    buffer.extend_from_slice(&ArchiveEndian::Little.encode_u64(script_offset));
    buffer.extend_from_slice(&ArchiveEndian::Little.encode_u64(3));
    buffer.extend_from_slice(&ArchiveEndian::Little.encode_u64(scene_offset));
    buffer.extend_from_slice(&ArchiveEndian::Little.encode_u64(scene.len() as u64));
    let toc_bytes = ArchiveEndian::Little.encode_u64(toc_offset);
    buffer[8..16].copy_from_slice(&toc_bytes);
    let archive = CGameArchive::from_bytes("t".to_string(), buffer).expect("open archive");

    let err = extract_script_source(&archive, "scripts/bad.lua").unwrap_err();
    assert!(matches!(err, ScriptError::Source(_)));
    assert!(!err.is_cancellation());
}
