use crystal_runtime::payload::{
    build_script_payload, dec_u64, indent_script, luau_helpers, luau_number, luau_string,
    luau_vec3_literal,
};
use crystal_runtime::{
    CliOptions, Fixed, InputSnapshot, KeyCode, MouseButton, NamedKey, SceneObject, Vec3F,
};
use crystal_runtime::cli::parse_cli;

fn text(bytes: Vec<u8>) -> String {
    String::from_utf8(bytes).expect("payload bytes are UTF-8")
}

#[test]
fn numbers_render_like_script_literals() {
    assert_eq!(text(dec_u64(0)), "0");
    assert_eq!(text(dec_u64(907)), "907");
    assert_eq!(text(luau_number(Fixed::from_units(1))), "1.0");
    assert_eq!(text(luau_number(Fixed::from_units(0))), "0.0");
    assert_eq!(text(luau_number(Fixed::from_micros(1_500_000))), "1.500000");
    assert_eq!(text(luau_number(Fixed::from_micros(-500_000))), "-0.500000");
    assert_eq!(text(luau_number(Fixed::from_micros(-2_000_000))), "-2.0");
    assert_eq!(text(luau_number(Fixed::from_micros(3_000_040))), "3.000040");
}

#[test]
fn strings_are_quoted_and_escaped() {
    assert_eq!(text(luau_string("plain")), "\"plain\"");
    assert_eq!(text(luau_string("a\"b\\c")), "\"a\\\"b\\\\c\"");
    assert_eq!(text(luau_string("line\nbreak\ttab\r")), "\"line\\nbreak\\ttab\\r\"");
    assert_eq!(text(luau_string("caf\u{e9}")), "\"caf\u{e9}\"");
}

#[test]
fn vectors_render_as_tables() {
    let v = Vec3F::new(
        Fixed::from_units(1),
        Fixed::from_micros(2_500_000),
        Fixed::from_units(-3),
    );
    assert_eq!(text(luau_vec3_literal(v)), "{ x = 1.0, y = 2.500000, z = -3.0 }");
}

#[test]
fn scripts_are_indented_line_by_line() {
    assert_eq!(text(indent_script("")), "");
    assert_eq!(text(indent_script("a")), "    a\n");
    assert_eq!(text(indent_script("a\nb")), "    a\n    b\n");
    assert_eq!(text(indent_script("a\r\nb\r\n")), "    a\n    b\n");
    assert_eq!(text(indent_script("a\n\nb")), "    a\n    \n    b\n");
}

#[test]
fn payload_carries_scene_input_viewport_and_script() {
    let mut object = SceneObject::named("Cube".to_string());
    object.object_type = "mesh".to_string();
    let objects = vec![object];
    let input = InputSnapshot::new();
    let payload = text(build_script_payload(
        &objects,
        &input,
        1280,
        720,
        "wait(20)",
        "scripts/test.lua",
    ));

    assert!(payload.starts_with("local __chunk_name = \"scripts/test.lua\"\n"));
    assert!(payload.contains("local __objects = {\n  [\"Cube\"] = {\n    name = \"Cube\",\n"));
    assert!(payload.contains("    type = \"mesh\",\n"));
    assert!(payload.contains("    position = { x = 0.0, y = 0.0, z = 0.0 },\n"));
    assert!(payload.contains("    color = { x = 1.0, y = 1.0, z = 1.0 },\n"));
    assert!(payload.contains("    fov = 45.0,\n"));
    assert!(payload.contains("local __object_order = {\n  \"Cube\",\n}\n"));
    assert!(payload.contains("local __input = {\n  keys = {\n  },\n  buttons = {\n  },\n"));
    assert!(payload.contains("  mouse = { x = 0.0, y = 0.0 },\n"));
    assert!(payload.contains("local __viewport = { width = 1280, height = 720 }\n"));
    assert!(payload.contains(luau_helpers()));
    assert!(payload.contains("local function __host_script()\n    wait(20)\n"));
    assert!(payload.ends_with(
        "__host_emit_result(__host_run_script(__chunk_name, __host_script, __objects, __object_order, __input, __viewport))\n"
    ));
}

#[test]
fn held_keys_list_their_aliases() {
    let mut input = InputSnapshot::new();
    input.set_key_down(KeyCode::Named(NamedKey::Enter));
    input.set_key_down(KeyCode::Character('W'));
    input.set_key_down(KeyCode::Function(3));
    input.set_mouse_button_down(MouseButton::new(0));
    input.set_mouse_position(Fixed::from_units(640), Fixed::from_units(360));

    let payload = text(build_script_payload(&Vec::new(), &input, 1, 1, "", "c"));
    assert!(payload.contains("    [\"Enter\"] = true,\n    [\"Return\"] = true,\n"));
    assert!(payload.contains("    [\"W\"] = true,\n"));
    assert!(payload.contains("    [\"F3\"] = true,\n"));
    assert!(payload.contains("    [\"Mouse\"] = true,\n    [\"Mouse1\"] = true,\n"));
    assert!(payload.contains("  mouse = { x = 640.0, y = 360.0 },\n"));
}

#[test]
fn cli_accepts_path_and_flags() {
    let args = vec!["scene.cgame".to_string(), "--run-scripts".to_string()];
    let options: CliOptions = parse_cli(&args).unwrap();
    assert_eq!(options.path, "scene.cgame");
    assert!(options.run_scripts);
    assert!(!options.summary_only);

    let args = vec![
        "scene.cgame".to_string(),
        "--summary-only".to_string(),
        "--run-scripts".to_string(),
    ];
    let options = parse_cli(&args).unwrap();
    assert!(options.run_scripts);
    assert!(options.summary_only);
}

#[test]
fn cli_rejects_unknown_arguments() {
    assert!(parse_cli(&Vec::new()).is_err());
    let args = vec!["scene.cgame".to_string(), "--wat".to_string()];
    let message = parse_cli(&args).unwrap_err();
    assert!(message.contains("Unknown argument"));
}
