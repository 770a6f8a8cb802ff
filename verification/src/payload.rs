//! The self-contained payload the cooperative strategy hands the external
//! evaluator, built byte by byte.
//!
//! Each tick serializes the scene snapshot, the input snapshot and the
//! viewport into script-source literals, indents the user script into a
//! wrapper function, and appends the runtime helpers. Every builder's
//! contract states the exact bytes it produces.

use vstd::prelude::*;
use vstd::utf8::encode_utf8;

use crate::input::{InputSnapshot, InputView, KeyCode, MouseButton, NamedKey};
use crate::scalar::{Fixed, Vec3F, MICROS_PER_UNIT};
use crate::scene::{ObjView, SceneObject};

verus! {

/// The UTF-8 bytes of a piece of text.
pub open spec fn lit(s: Seq<char>) -> Seq<u8> {
    encode_utf8(s)
}

/// Appends the bytes of a text literal.
pub fn append_lit(out: &mut Vec<u8>, text: &str)
    ensures
        final(out)@ == old(out)@ + lit(text@),
{
    let mut bytes = text.as_bytes_vec();
    out.append(&mut bytes);
}

/// The decimal digits of `n`.
pub open spec fn spec_dec(n: nat) -> Seq<u8>
    decreases n,
{
    if n < 10 {
        seq![(0x30 + n) as u8]
    } else {
        spec_dec(n / 10) + seq![(0x30 + n % 10) as u8]
    }
}

/// Writes `n` in decimal.
pub fn dec_u64(n: u64) -> (r: Vec<u8>)
    ensures
        r@ == spec_dec(n as nat),
    decreases n,
{
    if n < 10 {
        let mut out: Vec<u8> = Vec::new();
        out.push(0x30 + n as u8);
        proof {
            assert(out@ =~= spec_dec(n as nat));
        }
        out
    } else {
        let mut out = dec_u64(n / 10);
        out.push(0x30 + (n % 10) as u8);
        proof {
            assert(out@ =~= spec_dec((n / 10) as nat) + seq![(0x30 + n % 10) as u8]);
        }
        out
    }
}

/// A fraction of a unit, written as exactly six digits.
pub open spec fn spec_frac6(frac: nat) -> Seq<u8> {
    Seq::new((6 - spec_dec(frac).len()) as nat, |i: int| 0x30u8) + spec_dec(frac)
}

/// The magnitude of a fixed-point number, as a natural number.
pub open spec fn spec_magnitude(m: int) -> nat {
    if m < 0 {
        (-m) as nat
    } else {
        m as nat
    }
}

/// A fixed-point number as the evaluator reads it: integral values end in
/// `.0`, others carry all six fractional digits, zero-padded.
pub open spec fn spec_luau_number(m: int) -> Seq<u8> {
    let sign: Seq<u8> = if m < 0 {
        seq![0x2du8]
    } else {
        Seq::empty()
    };
    let magnitude = spec_magnitude(m);
    let units = magnitude / (MICROS_PER_UNIT as nat);
    let frac = magnitude % (MICROS_PER_UNIT as nat);
    if frac == 0 {
        sign + spec_dec(units) + seq![0x2eu8, 0x30u8]
    } else {
        sign + spec_dec(units) + seq![0x2eu8] + spec_frac6(frac)
    }
}

/// Powers of ten.
pub open spec fn pow10(d: nat) -> nat
    decreases d,
{
    if d == 0 {
        1
    } else {
        10 * pow10((d - 1) as nat)
    }
}

/// A number below the `d`-th power of ten has at most `d` digits.
proof fn lemma_dec_len_pow(n: nat, d: nat)
    requires
        d >= 1,
        n < pow10(d),
    ensures
        1 <= spec_dec(n).len() <= d,
    decreases d,
{
    if n >= 10 {
        if d == 1 {
            assert(pow10(1) == 10) by {
                reveal_with_fuel(pow10, 2);
            }
        } else {
            assert(n / 10 < pow10((d - 1) as nat)) by {
                assert(pow10(d) == 10 * pow10((d - 1) as nat));
            }
            lemma_dec_len_pow(n / 10, (d - 1) as nat);
        }
    }
}

/// How many digits a number below a million has: at most six.
proof fn lemma_dec_len(n: nat)
    requires
        n < 1_000_000,
    ensures
        1 <= spec_dec(n).len() <= 6,
{
    assert(pow10(6) == 1_000_000) by {
        reveal_with_fuel(pow10, 7);
    }
    lemma_dec_len_pow(n, 6);
}

/// Writes a fixed-point number for the evaluator.
pub fn luau_number(v: Fixed) -> (r: Vec<u8>)
    ensures
        r@ == spec_luau_number(v.micros as int),
{
    let magnitude: u64 = if v.micros == i64::MIN {
        9223372036854775808u64
    } else if v.micros < 0 {
        (-v.micros) as u64
    } else {
        v.micros as u64
    };
    let units = magnitude / 1_000_000;
    let frac = magnitude % 1_000_000;
    let mut out: Vec<u8> = Vec::new();
    if v.micros < 0 {
        out.push(0x2d);
    }
    let mut unit_digits = dec_u64(units);
    out.append(&mut unit_digits);
    out.push(0x2e);
    if frac == 0 {
        out.push(0x30);
        proof {
            assert(out@ =~= spec_luau_number(v.micros as int));
        }
    } else {
        proof {
            lemma_dec_len(frac as nat);
        }
        let frac_digits = dec_u64(frac);
        let mut pad = 6 - frac_digits.len();
        while pad > 0
            invariant
                pad <= 6 - spec_dec(frac as nat).len(),
                out@ =~= spec_number_prefix(v.micros as int) + Seq::new(
                    (6 - spec_dec(frac as nat).len() - pad) as nat,
                    |i: int| 0x30u8,
                ),
            decreases pad,
        {
            out.push(0x30);
            proof {
                assert(out@ =~= spec_number_prefix(v.micros as int) + Seq::new(
                    (6 - spec_dec(frac as nat).len() - (pad - 1)) as nat,
                    |i: int| 0x30u8,
                ));
            }
            pad = pad - 1;
        }
        let mut frac_digits = frac_digits;
        out.append(&mut frac_digits);
        proof {
            assert(out@ =~= spec_luau_number(v.micros as int));
        }
    }
    out
}

/// The sign and unit digits a number starts with.
pub open spec fn spec_number_prefix(m: int) -> Seq<u8> {
    let sign: Seq<u8> = if m < 0 {
        seq![0x2du8]
    } else {
        Seq::empty()
    };
    sign + spec_dec(spec_magnitude(m) / (MICROS_PER_UNIT as nat)) + seq![0x2eu8]
}

/// One byte of a string literal, escaped for the evaluator.
pub open spec fn spec_escape_byte(b: u8) -> Seq<u8> {
    if b == 0x5c {
        seq![0x5cu8, 0x5cu8]
    } else if b == 0x22 {
        seq![0x5cu8, 0x22u8]
    } else if b == 0x0a {
        seq![0x5cu8, 0x6eu8]
    } else if b == 0x0d {
        seq![0x5cu8, 0x72u8]
    } else if b == 0x09 {
        seq![0x5cu8, 0x74u8]
    } else {
        seq![b]
    }
}

/// A byte string with every special byte escaped.
pub open spec fn spec_escape(s: Seq<u8>) -> Seq<u8>
    decreases s.len(),
{
    if s.len() == 0 {
        Seq::empty()
    } else {
        spec_escape(s.drop_last()) + spec_escape_byte(s.last())
    }
}

/// A quoted, escaped string literal for the evaluator.
pub open spec fn spec_quoted(s: Seq<char>) -> Seq<u8> {
    seq![0x22u8] + spec_escape(encode_utf8(s)) + seq![0x22u8]
}

/// Writes a quoted string literal.
pub fn luau_string(value: &str) -> (r: Vec<u8>)
    ensures
        r@ == spec_quoted(value@),
{
    let bytes = value.as_bytes_vec();
    let mut out: Vec<u8> = Vec::new();
    out.push(0x22);
    let n = bytes.len();
    let mut i: usize = 0;
    while i < n
        invariant
            i <= n,
            n == bytes@.len(),
            out@ =~= seq![0x22u8] + spec_escape(bytes@.take(i as int)),
        decreases n - i,
    {
        let b = bytes[i];
        if b == 0x5c {
            out.push(0x5c);
            out.push(0x5c);
        } else if b == 0x22 {
            out.push(0x5c);
            out.push(0x22);
        } else if b == 0x0a {
            out.push(0x5c);
            out.push(0x6e);
        } else if b == 0x0d {
            out.push(0x5c);
            out.push(0x72);
        } else if b == 0x09 {
            out.push(0x5c);
            out.push(0x74);
        } else {
            out.push(b);
        }
        proof {
            assert(bytes@.take(i + 1).drop_last() =~= bytes@.take(i as int));
            assert(bytes@.take(i + 1).last() == b);
            assert(out@ =~= seq![0x22u8] + spec_escape(bytes@.take(i + 1)));
        }
        i = i + 1;
    }
    out.push(0x22);
    proof {
        assert(bytes@.take(n as int) =~= bytes@);
        assert(out@ =~= spec_quoted(value@));
    }
    out
}

/// A vector as the evaluator reads it.
pub open spec fn spec_vec3_literal(v: Vec3F) -> Seq<u8> {
    lit("{ x = "@) + spec_luau_number(v.x.micros as int) + lit(", y = "@) + spec_luau_number(
        v.y.micros as int,
    ) + lit(", z = "@) + spec_luau_number(v.z.micros as int) + lit(" }"@)
}

/// Writes a vector literal.
pub fn luau_vec3_literal(v: Vec3F) -> (r: Vec<u8>)
    ensures
        r@ == spec_vec3_literal(v),
{
    let mut out: Vec<u8> = Vec::new();
    append_lit(&mut out, "{ x = ");
    let mut x = luau_number(v.x);
    out.append(&mut x);
    append_lit(&mut out, ", y = ");
    let mut y = luau_number(v.y);
    out.append(&mut y);
    append_lit(&mut out, ", z = ");
    let mut z = luau_number(v.z);
    out.append(&mut z);
    append_lit(&mut out, " }");
    proof {
        assert(out@ =~= spec_vec3_literal(v));
    }
    out
}

/// The name and kind lines an object's entry starts with.
pub open spec fn spec_obj_header(o: ObjView) -> Seq<u8> {
    lit("  ["@) + spec_quoted(o.name) + lit("] = {\n    name = "@) + spec_quoted(o.name) + lit(
        ",\n    type = "@,
    ) + spec_quoted(o.object_type) + lit(",\n"@)
}

/// The mesh line of an object's entry, if it references one.
pub open spec fn spec_obj_mesh(o: ObjView) -> Seq<u8> {
    match o.mesh {
        Option::Some(m) => lit("    mesh = "@) + spec_quoted(m) + lit(",\n"@),
        Option::None => Seq::empty(),
    }
}

/// The transform lines of an object's entry.
pub open spec fn spec_obj_transforms(o: ObjView) -> Seq<u8> {
    lit("    position = "@) + spec_vec3_literal(o.position) + lit(",\n    rotation = "@)
        + spec_vec3_literal(o.rotation) + lit(",\n    scale = "@) + spec_vec3_literal(o.scale)
        + lit(",\n"@)
}

/// The appearance lines an object's entry ends with.
pub open spec fn spec_obj_appearance(o: ObjView) -> Seq<u8> {
    lit("    color = "@) + spec_vec3_literal(o.color) + lit(",\n    fov = "@) + spec_luau_number(
        o.fov.micros as int,
    ) + lit(",\n    intensity = "@) + spec_luau_number(o.intensity.micros as int) + lit(
        "\n  },\n"@,
    )
}

/// One object's entry in the serialized scene table.
pub open spec fn spec_emit_object(o: ObjView) -> Seq<u8> {
    spec_obj_header(o) + spec_obj_mesh(o) + spec_obj_transforms(o) + spec_obj_appearance(o)
}

/// Writes the name and kind lines of one object.
fn emit_obj_header(out: &mut Vec<u8>, object: &SceneObject)
    ensures
        final(out)@ == old(out)@ + spec_obj_header(object@),
{
    append_lit(out, "  [");
    let mut name = luau_string(object.name.as_str());
    out.append(&mut name);
    append_lit(out, "] = {\n    name = ");
    let mut name2 = luau_string(object.name.as_str());
    out.append(&mut name2);
    append_lit(out, ",\n    type = ");
    let mut kind = luau_string(object.object_type.as_str());
    out.append(&mut kind);
    append_lit(out, ",\n");
    proof {
        assert(out@ =~= old(out)@ + spec_obj_header(object@));
    }
}

/// Writes the mesh line of one object, if it references a mesh.
fn emit_obj_mesh(out: &mut Vec<u8>, object: &SceneObject)
    ensures
        final(out)@ == old(out)@ + spec_obj_mesh(object@),
{
    match &object.mesh {
        Some(mesh) => {
            append_lit(out, "    mesh = ");
            let mut mesh_bytes = luau_string(mesh.as_str());
            out.append(&mut mesh_bytes);
            append_lit(out, ",\n");
            proof {
                assert(out@ =~= old(out)@ + spec_obj_mesh(object@));
            }
        },
        None => {
            proof {
                assert(out@ =~= old(out)@ + spec_obj_mesh(object@));
            }
        },
    }
}

/// Writes the transform lines of one object.
fn emit_obj_transforms(out: &mut Vec<u8>, object: &SceneObject)
    ensures
        final(out)@ == old(out)@ + spec_obj_transforms(object@),
{
    append_lit(out, "    position = ");
    let mut position = luau_vec3_literal(object.position);
    out.append(&mut position);
    append_lit(out, ",\n    rotation = ");
    let mut rotation = luau_vec3_literal(object.rotation);
    out.append(&mut rotation);
    append_lit(out, ",\n    scale = ");
    let mut scale = luau_vec3_literal(object.scale);
    out.append(&mut scale);
    append_lit(out, ",\n");
    proof {
        assert(out@ =~= old(out)@ + spec_obj_transforms(object@));
    }
}

/// Writes the appearance lines of one object.
fn emit_obj_appearance(out: &mut Vec<u8>, object: &SceneObject)
    ensures
        final(out)@ == old(out)@ + spec_obj_appearance(object@),
{
    append_lit(out, "    color = ");
    let mut color = luau_vec3_literal(object.color);
    out.append(&mut color);
    append_lit(out, ",\n    fov = ");
    let mut fov = luau_number(object.fov);
    out.append(&mut fov);
    append_lit(out, ",\n    intensity = ");
    let mut intensity = luau_number(object.intensity);
    out.append(&mut intensity);
    append_lit(out, "\n  },\n");
    proof {
        assert(out@ =~= old(out)@ + spec_obj_appearance(object@));
    }
}

/// Writes one object's serialized entry.
pub fn emit_object(out: &mut Vec<u8>, object: &SceneObject)
    ensures
        final(out)@ == old(out)@ + spec_emit_object(object@),
{
    emit_obj_header(out, object);
    emit_obj_mesh(out, object);
    emit_obj_transforms(out, object);
    emit_obj_appearance(out, object);
    proof {
        assert(out@ =~= old(out)@ + spec_emit_object(object@));
    }
}

/// Every object's serialized entry, in scene order.
pub open spec fn spec_emit_objects(objs: Seq<ObjView>) -> Seq<u8>
    decreases objs.len(),
{
    if objs.len() == 0 {
        Seq::empty()
    } else {
        spec_emit_objects(objs.drop_last()) + spec_emit_object(objs.last())
    }
}

/// One line of the serialized object-order list.
pub open spec fn spec_order_line(name: Seq<char>) -> Seq<u8> {
    lit("  "@) + spec_quoted(name) + lit(",\n"@)
}

/// Every object's order line, in scene order.
pub open spec fn spec_order_lines(objs: Seq<ObjView>) -> Seq<u8>
    decreases objs.len(),
{
    if objs.len() == 0 {
        Seq::empty()
    } else {
        spec_order_lines(objs.drop_last()) + spec_order_line(objs.last().name)
    }
}

/// The serialized scene table and order list.
pub open spec fn spec_object_table(objs: Seq<ObjView>) -> Seq<u8> {
    lit("local __objects = {\n"@) + spec_emit_objects(objs) + lit(
        "}\nlocal __object_order = {\n"@,
    ) + spec_order_lines(objs) + lit("}\n"@)
}

/// Serializes the scene snapshot into the payload.
#[verifier::rlimit(100)]
pub fn emit_object_table(out: &mut Vec<u8>, objects: &Vec<SceneObject>)
    ensures
        final(out)@ == old(out)@ + spec_object_table(
            objects@.map_values(|o: SceneObject| o@),
        ),
{
    let ghost views = objects@.map_values(|o: SceneObject| o@);
    append_lit(out, "local __objects = {\n");
    let ghost base = out@;
    let n = objects.len();
    let mut i: usize = 0;
    while i < n
        invariant
            i <= n,
            n == objects@.len(),
            views == objects@.map_values(|o: SceneObject| o@),
            out@ =~= base + spec_emit_objects(views.take(i as int)),
        decreases n - i,
    {
        emit_object(out, &objects[i]);
        proof {
            assert(views.take(i + 1).drop_last() =~= views.take(i as int));
            assert(views.take(i + 1).last() == views[i as int]);
            assert(out@ =~= base + spec_emit_objects(views.take(i + 1)));
        }
        i = i + 1;
    }
    proof {
        assert(views.take(n as int) =~= views);
    }
    append_lit(out, "}\nlocal __object_order = {\n");
    let ghost base2 = out@;
    let mut j: usize = 0;
    while j < n
        invariant
            j <= n,
            n == objects@.len(),
            views == objects@.map_values(|o: SceneObject| o@),
            out@ =~= base2 + spec_order_lines(views.take(j as int)),
        decreases n - j,
    {
        append_lit(out, "  ");
        let mut name = luau_string(objects[j].name.as_str());
        out.append(&mut name);
        append_lit(out, ",\n");
        proof {
            assert(views.take(j + 1).drop_last() =~= views.take(j as int));
            assert(views.take(j + 1).last() == views[j as int]);
            assert(out@ =~= base2 + spec_order_lines(views.take(j + 1)));
        }
        j = j + 1;
    }
    proof {
        assert(views.take(n as int) =~= views);
    }
    append_lit(out, "}\n");
    proof {
        assert(out@ =~= old(out)@ + spec_object_table(views));
    }
}

/// The keys the payload enumerates, in canonical order: the friendly keys,
/// the letters, the digits, then the first twelve function keys.
pub open spec fn spec_canonical_keys() -> Seq<KeyCode> {
    spec_named_keys().map_values(|k: NamedKey| KeyCode::Named(k)) + Seq::new(
        26,
        |i: int| KeyCode::Character(((0x41 + i) as u8) as char),
    ) + Seq::new(10, |i: int| KeyCode::Digit(i as u8)) + Seq::new(
        12,
        |i: int| KeyCode::Function((i + 1) as u8),
    )
}

/// The friendly keys, in canonical order.
pub open spec fn spec_named_keys() -> Seq<NamedKey> {
    seq![
        NamedKey::Space,
        NamedKey::Enter,
        NamedKey::Tab,
        NamedKey::Left,
        NamedKey::Right,
        NamedKey::Up,
        NamedKey::Down,
        NamedKey::Escape,
        NamedKey::Backspace,
        NamedKey::Home,
        NamedKey::End,
        NamedKey::PageUp,
        NamedKey::PageDown,
        NamedKey::LeftShift,
        NamedKey::RightShift,
        NamedKey::LeftCtrl,
        NamedKey::RightCtrl,
        NamedKey::LeftAlt,
        NamedKey::RightAlt,
    ]
}

/// Builds the canonical key list.
pub fn canonical_keys() -> (r: Vec<KeyCode>)
    ensures
        r@ == spec_canonical_keys(),
{
    let mut keys: Vec<KeyCode> = Vec::new();
    keys.push(KeyCode::Named(NamedKey::Space));
    keys.push(KeyCode::Named(NamedKey::Enter));
    keys.push(KeyCode::Named(NamedKey::Tab));
    keys.push(KeyCode::Named(NamedKey::Left));
    keys.push(KeyCode::Named(NamedKey::Right));
    keys.push(KeyCode::Named(NamedKey::Up));
    keys.push(KeyCode::Named(NamedKey::Down));
    keys.push(KeyCode::Named(NamedKey::Escape));
    keys.push(KeyCode::Named(NamedKey::Backspace));
    keys.push(KeyCode::Named(NamedKey::Home));
    keys.push(KeyCode::Named(NamedKey::End));
    keys.push(KeyCode::Named(NamedKey::PageUp));
    keys.push(KeyCode::Named(NamedKey::PageDown));
    keys.push(KeyCode::Named(NamedKey::LeftShift));
    keys.push(KeyCode::Named(NamedKey::RightShift));
    keys.push(KeyCode::Named(NamedKey::LeftCtrl));
    keys.push(KeyCode::Named(NamedKey::RightCtrl));
    keys.push(KeyCode::Named(NamedKey::LeftAlt));
    keys.push(KeyCode::Named(NamedKey::RightAlt));
    let mut letter: u8 = 0x41;
    while letter <= 0x5a
        invariant
            0x41 <= letter <= 0x5b,
            keys@ =~= spec_named_keys().map_values(|k: NamedKey| KeyCode::Named(k)) + Seq::new(
                (letter - 0x41) as nat,
                |i: int| KeyCode::Character(((0x41 + i) as u8) as char),
            ),
        decreases 0x5b - letter,
    {
        keys.push(KeyCode::Character(letter as char));
        proof {
            assert(keys@ =~= spec_named_keys().map_values(|k: NamedKey| KeyCode::Named(k))
                + Seq::new(
                (letter - 0x40) as nat,
                |i: int| KeyCode::Character(((0x41 + i) as u8) as char),
            ));
        }
        letter = letter + 1;
    }
    let mut digit: u8 = 0;
    while digit <= 9
        invariant
            digit <= 10,
            keys@ =~= spec_named_keys().map_values(|k: NamedKey| KeyCode::Named(k)) + Seq::new(
                26,
                |i: int| KeyCode::Character(((0x41 + i) as u8) as char),
            ) + Seq::new(digit as nat, |i: int| KeyCode::Digit(i as u8)),
        decreases 10 - digit,
    {
        keys.push(KeyCode::Digit(digit));
        proof {
            assert(keys@ =~= spec_named_keys().map_values(|k: NamedKey| KeyCode::Named(k))
                + Seq::new(
                26,
                |i: int| KeyCode::Character(((0x41 + i) as u8) as char),
            ) + Seq::new((digit + 1) as nat, |i: int| KeyCode::Digit(i as u8)));
        }
        digit = digit + 1;
    }
    let mut function: u8 = 1;
    while function <= 12
        invariant
            1 <= function <= 13,
            keys@ =~= spec_named_keys().map_values(|k: NamedKey| KeyCode::Named(k)) + Seq::new(
                26,
                |i: int| KeyCode::Character(((0x41 + i) as u8) as char),
            ) + Seq::new(10, |i: int| KeyCode::Digit(i as u8)) + Seq::new(
                (function - 1) as nat,
                |i: int| KeyCode::Function((i + 1) as u8),
            ),
        decreases 13 - function,
    {
        keys.push(KeyCode::Function(function));
        proof {
            assert(keys@ =~= spec_named_keys().map_values(|k: NamedKey| KeyCode::Named(k))
                + Seq::new(
                26,
                |i: int| KeyCode::Character(((0x41 + i) as u8) as char),
            ) + Seq::new(10, |i: int| KeyCode::Digit(i as u8)) + Seq::new(
                function as nat,
                |i: int| KeyCode::Function((i + 1) as u8),
            ));
        }
        function = function + 1;
    }
    proof {
        assert(keys@ =~= spec_canonical_keys());
    }
    keys
}

/// The names the payload lists for one held key; friendly keys also list
/// their aliases.
pub open spec fn spec_key_names(key: KeyCode) -> Seq<Seq<u8>> {
    match key {
        KeyCode::Named(named) => spec_named_key_aliases(named),
        KeyCode::Character(c) => seq![seq![c as u8]],
        KeyCode::Digit(d) => seq![seq![(0x30 + d as int) as u8]],
        KeyCode::Function(i) => seq![lit("F"@) + spec_dec(i as nat)],
    }
}

/// The name and aliases of one friendly key.
pub open spec fn spec_named_key_aliases(key: NamedKey) -> Seq<Seq<u8>> {
    match key {
        NamedKey::Space => seq![lit("Space"@)],
        NamedKey::Enter => seq![lit("Enter"@), lit("Return"@)],
        NamedKey::Tab => seq![lit("Tab"@)],
        NamedKey::Left => seq![lit("Left"@)],
        NamedKey::Right => seq![lit("Right"@)],
        NamedKey::Up => seq![lit("Up"@)],
        NamedKey::Down => seq![lit("Down"@)],
        NamedKey::Escape => seq![lit("Escape"@), lit("Esc"@)],
        NamedKey::Backspace => seq![lit("Backspace"@)],
        NamedKey::Home => seq![lit("Home"@)],
        NamedKey::End => seq![lit("End"@)],
        NamedKey::PageUp => seq![lit("PageUp"@)],
        NamedKey::PageDown => seq![lit("PageDown"@)],
        NamedKey::LeftShift => seq![lit("LeftShift"@), lit("LShift"@)],
        NamedKey::RightShift => seq![lit("RightShift"@), lit("RShift"@)],
        NamedKey::LeftCtrl => seq![lit("LeftCtrl"@), lit("LControl"@)],
        NamedKey::RightCtrl => seq![lit("RightCtrl"@), lit("RControl"@)],
        NamedKey::LeftAlt => seq![lit("LeftAlt"@), lit("LAlt"@)],
        NamedKey::RightAlt => seq![lit("RightAlt"@), lit("RAlt"@)],
    }
}

/// Writes the names of one key.
pub fn key_names(key: KeyCode) -> (r: Vec<Vec<u8>>)
    ensures
        r@.map_values(|v: Vec<u8>| v@) == spec_key_names(key),
{
    let mut out: Vec<Vec<u8>> = Vec::new();
    match key {
        KeyCode::Named(named) => {
            let first: &str = match named {
                NamedKey::Space => "Space",
                NamedKey::Enter => "Enter",
                NamedKey::Tab => "Tab",
                NamedKey::Left => "Left",
                NamedKey::Right => "Right",
                NamedKey::Up => "Up",
                NamedKey::Down => "Down",
                NamedKey::Escape => "Escape",
                NamedKey::Backspace => "Backspace",
                NamedKey::Home => "Home",
                NamedKey::End => "End",
                NamedKey::PageUp => "PageUp",
                NamedKey::PageDown => "PageDown",
                NamedKey::LeftShift => "LeftShift",
                NamedKey::RightShift => "RightShift",
                NamedKey::LeftCtrl => "LeftCtrl",
                NamedKey::RightCtrl => "RightCtrl",
                NamedKey::LeftAlt => "LeftAlt",
                NamedKey::RightAlt => "RightAlt",
            };
            let alias: Option<&str> = match named {
                NamedKey::Enter => Some("Return"),
                NamedKey::Escape => Some("Esc"),
                NamedKey::LeftShift => Some("LShift"),
                NamedKey::RightShift => Some("RShift"),
                NamedKey::LeftCtrl => Some("LControl"),
                NamedKey::RightCtrl => Some("RControl"),
                NamedKey::LeftAlt => Some("LAlt"),
                NamedKey::RightAlt => Some("RAlt"),
                _ => None,
            };
            out.push(first.as_bytes_vec());
            match alias {
                Some(a) => {
                    out.push(a.as_bytes_vec());
                },
                None => {},
            }
        },
        KeyCode::Character(c) => {
            let mut name: Vec<u8> = Vec::new();
            name.push(#[verifier::truncate] (c as u8));
            proof {
                assert(name@ =~= seq![c as u8]);
            }
            out.push(name);
        },
        KeyCode::Digit(d) => {
            let mut name: Vec<u8> = Vec::new();
            name.push(#[verifier::truncate] ((0x30u16 + d as u16) as u8));
            proof {
                assert(name@ =~= seq![(0x30 + d as int) as u8]);
            }
            out.push(name);
        },
        KeyCode::Function(i) => {
            let mut name: Vec<u8> = Vec::new();
            append_lit(&mut name, "F");
            let mut digits = dec_u64(i as u64);
            name.append(&mut digits);
            out.push(name);
        },
    }
    proof {
        assert(out@.map_values(|v: Vec<u8>| v@) =~= spec_key_names(key));
    }
    out
}

/// One held-name line of the serialized input snapshot.
pub open spec fn spec_held_line(name: Seq<u8>) -> Seq<u8> {
    lit("    ["@) + seq![0x22u8] + spec_escape(name) + seq![0x22u8] + lit("] = true,\n"@)
}

/// The lines for every name of every held key, in canonical order.
pub open spec fn spec_key_lines(keys: Seq<KeyCode>, view: InputView) -> Seq<u8>
    decreases keys.len(),
{
    if keys.len() == 0 {
        Seq::empty()
    } else {
        spec_key_lines(keys.drop_last(), view) + (if view.keys.contains(keys.last()) {
            spec_name_lines(spec_key_names(keys.last()))
        } else {
            Seq::empty()
        })
    }
}

/// The lines for a list of names.
pub open spec fn spec_name_lines(names: Seq<Seq<u8>>) -> Seq<u8>
    decreases names.len(),
{
    if names.len() == 0 {
        Seq::empty()
    } else {
        spec_name_lines(names.drop_last()) + spec_held_line(names.last())
    }
}

/// The lines for every held mouse button, indices zero to two: the left
/// button is listed both as `Mouse` and `Mouse1`.
pub open spec fn spec_button_lines(view: InputView) -> Seq<u8> {
    (if view.buttons.contains(MouseButton::spec_with_index(0)) {
        spec_held_line(lit("Mouse"@)) + spec_held_line(lit("Mouse1"@))
    } else {
        Seq::empty()
    }) + (if view.buttons.contains(MouseButton::spec_with_index(1)) {
        spec_held_line(lit("Mouse2"@))
    } else {
        Seq::empty()
    }) + (if view.buttons.contains(MouseButton::spec_with_index(2)) {
        spec_held_line(lit("Mouse3"@))
    } else {
        Seq::empty()
    })
}

/// The serialized input snapshot.
pub open spec fn spec_input_snapshot(view: InputView) -> Seq<u8> {
    lit("local __input = {\n  keys = {\n"@) + spec_key_lines(spec_canonical_keys(), view) + lit(
        "  },\n  buttons = {\n"@,
    ) + spec_button_lines(view) + lit("  },\n  mouse = { x = "@) + spec_luau_number(
        view.mouse.0.micros as int,
    ) + lit(", y = "@) + spec_luau_number(view.mouse.1.micros as int) + lit(" },\n\n}\n"@)
}

/// Appends one held-name line.
fn emit_held_line(out: &mut Vec<u8>, name: &Vec<u8>)
    ensures
        final(out)@ == old(out)@ + spec_held_line(name@),
{
    append_lit(out, "    [");
    out.push(0x22);
    let n = name.len();
    let ghost base = out@;
    let mut i: usize = 0;
    while i < n
        invariant
            i <= n,
            n == name@.len(),
            out@ =~= base + spec_escape(name@.take(i as int)),
        decreases n - i,
    {
        let b = name[i];
        if b == 0x5c {
            out.push(0x5c);
            out.push(0x5c);
        } else if b == 0x22 {
            out.push(0x5c);
            out.push(0x22);
        } else if b == 0x0a {
            out.push(0x5c);
            out.push(0x6e);
        } else if b == 0x0d {
            out.push(0x5c);
            out.push(0x72);
        } else if b == 0x09 {
            out.push(0x5c);
            out.push(0x74);
        } else {
            out.push(b);
        }
        proof {
            assert(name@.take(i + 1).drop_last() =~= name@.take(i as int));
            assert(name@.take(i + 1).last() == b);
            assert(out@ =~= base + spec_escape(name@.take(i + 1)));
        }
        i = i + 1;
    }
    proof {
        assert(name@.take(n as int) =~= name@);
    }
    out.push(0x22);
    append_lit(out, "] = true,\n");
    proof {
        assert(out@ =~= old(out)@ + spec_held_line(name@));
    }
}

/// Serializes the input snapshot into the payload.
#[verifier::rlimit(100)]
pub fn emit_input_snapshot(out: &mut Vec<u8>, snapshot: &InputSnapshot)
    ensures
        final(out)@ == old(out)@ + spec_input_snapshot(snapshot@),
{
    append_lit(out, "local __input = {\n  keys = {\n");
    let keys = canonical_keys();
    let n = keys.len();
    let ghost base = out@;
    let mut i: usize = 0;
    while i < n
        invariant
            i <= n,
            n == keys@.len(),
            keys@ == spec_canonical_keys(),
            out@ =~= base + spec_key_lines(keys@.take(i as int), snapshot@),
        decreases n - i,
    {
        proof {
            assert(keys@.take(i + 1).drop_last() =~= keys@.take(i as int));
            assert(keys@.take(i + 1).last() == keys@[i as int]);
        }
        let key = keys[i];
        if snapshot.is_key_down(key) {
            let names = key_names(key);
            let m = names.len();
            let ghost inner_base = out@;
            let ghost name_views = names@.map_values(|v: Vec<u8>| v@);
            let mut j: usize = 0;
            while j < m
                invariant
                    j <= m,
                    m == names@.len(),
                    name_views == names@.map_values(|v: Vec<u8>| v@),
                    out@ =~= inner_base + spec_name_lines(name_views.take(j as int)),
                decreases m - j,
            {
                emit_held_line(out, &names[j]);
                proof {
                    assert(name_views.take(j + 1).drop_last() =~= name_views.take(j as int));
                    assert(name_views.take(j + 1).last() == name_views[j as int]);
                    assert(out@ =~= inner_base + spec_name_lines(name_views.take(j + 1)));
                }
                j = j + 1;
            }
            proof {
                assert(name_views.take(m as int) =~= name_views);
                assert(name_views =~= spec_key_names(key));
                assert(out@ =~= base + spec_key_lines(keys@.take(i + 1), snapshot@));
            }
        } else {
            proof {
                assert(out@ =~= base + spec_key_lines(keys@.take(i + 1), snapshot@));
            }
        }
        i = i + 1;
    }
    proof {
        assert(keys@.take(n as int) =~= keys@);
    }
    append_lit(out, "  },\n  buttons = {\n");
    let mouse_name: &str = "Mouse";
    if snapshot.is_mouse_button_down(MouseButton::new(0)) {
        let mut name: Vec<u8> = mouse_name.as_bytes_vec();
        emit_held_line(out, &name);
        append_lit_held(out, "Mouse1");
    }
    if snapshot.is_mouse_button_down(MouseButton::new(1)) {
        append_lit_held(out, "Mouse2");
    }
    if snapshot.is_mouse_button_down(MouseButton::new(2)) {
        append_lit_held(out, "Mouse3");
    }
    append_lit(out, "  },\n  mouse = { x = ");
    let (x, y) = snapshot.mouse_position();
    let mut xb = luau_number(x);
    out.append(&mut xb);
    append_lit(out, ", y = ");
    let mut yb = luau_number(y);
    out.append(&mut yb);
    append_lit(out, " },\n\n}\n");
    proof {
        assert(out@ =~= old(out)@ + spec_input_snapshot(snapshot@));
    }
}

/// Appends a held-name line for a literal name.
fn append_lit_held(out: &mut Vec<u8>, name: &str)
    ensures
        final(out)@ == old(out)@ + spec_held_line(lit(name@)),
{
    let bytes = name.as_bytes_vec();
    emit_held_line(out, &bytes);
}

/// The serialized viewport.
pub open spec fn spec_viewport(width: u32, height: u32) -> Seq<u8> {
    lit("local __viewport = { width = "@) + spec_dec(width as nat) + lit(", height = "@)
        + spec_dec(height as nat) + lit(" }\n\n"@)
}

/// Serializes the viewport size into the payload.
pub fn emit_viewport(out: &mut Vec<u8>, width: u32, height: u32)
    ensures
        final(out)@ == old(out)@ + spec_viewport(width, height),
{
    append_lit(out, "local __viewport = { width = ");
    let mut w = dec_u64(width as u64);
    out.append(&mut w);
    append_lit(out, ", height = ");
    let mut h = dec_u64(height as u64);
    out.append(&mut h);
    append_lit(out, " }\n\n");
    proof {
        assert(out@ =~= old(out)@ + spec_viewport(width, height));
    }
}

/// Index of the first line break at or after `from`, if any.
pub open spec fn spec_first_nl(s: Seq<u8>, from: int) -> Option<int>
    decreases s.len() - from,
{
    if from < 0 || from >= s.len() {
        Option::None
    } else if s[from] == 0x0a {
        Option::Some(from)
    } else {
        spec_first_nl(s, from + 1)
    }
}

/// One script line without a trailing carriage return.
pub open spec fn spec_strip_cr(line: Seq<u8>) -> Seq<u8> {
    if line.len() > 0 && line.last() == 0x0d {
        line.drop_last()
    } else {
        line
    }
}

/// The script from position `from` on, with every line indented four
/// spaces and line endings normalized.
pub open spec fn spec_indent_from(s: Seq<u8>, from: int) -> Seq<u8>
    decreases s.len() - from,
{
    if from < 0 || from >= s.len() {
        Seq::empty()
    } else {
        match spec_first_nl(s, from) {
            Option::None => lit("    "@) + spec_strip_cr(s.subrange(from, s.len() as int)) + seq![
                0x0au8,
            ],
            Option::Some(nl) => if from <= nl < s.len() {
                lit("    "@) + spec_strip_cr(s.subrange(from, nl)) + seq![0x0au8]
                    + spec_indent_from(s, nl + 1)
            } else {
                Seq::empty()
            },
        }
    }
}

/// Finds the next line break at or after `from`.
fn first_nl(bytes: &Vec<u8>, from: usize) -> (r: Option<usize>)
    ensures
        match spec_first_nl(bytes@, from as int) {
            Option::None => r is None,
            Option::Some(i) => r is Some && r->0 == i && from <= i < bytes@.len(),
        },
{
    let n = bytes.len();
    let mut i: usize = from;
    while i < n
        invariant
            from <= i,
            n == bytes@.len(),
            spec_first_nl(bytes@, from as int) == spec_first_nl(bytes@, i as int),
        decreases n - i,
    {
        if bytes[i] == 0x0a {
            proof {
                lemma_first_nl_found(bytes@, from as int, i as int);
            }
            return Some(i);
        }
        i = i + 1;
    }
    None
}

/// A line break found with none before it is the first one.
proof fn lemma_first_nl_found(s: Seq<u8>, from: int, i: int)
    requires
        0 <= from <= i < s.len(),
        s[i] == 0x0a,
        spec_first_nl(s, from) == spec_first_nl(s, i),
    ensures
        spec_first_nl(s, from) == Option::Some(i),
{
}

/// Indents each line of the script by four spaces, normalizing line
/// endings; an empty script stays empty.
pub fn indent_script(script: &str) -> (r: Vec<u8>)
    ensures
        r@ == spec_indent_from(encode_utf8(script@), 0),
{
    let bytes = script.as_bytes_vec();
    let mut out: Vec<u8> = Vec::new();
    let n = bytes.len();
    let mut pos: usize = 0;
    while pos < n
        invariant
            pos <= n,
            n == bytes@.len(),
            spec_indent_from(bytes@, 0) =~= out@ + spec_indent_from(bytes@, pos as int),
        decreases n - pos,
    {
        let line_end = match first_nl(&bytes, pos) {
            Some(nl) => nl,
            None => n,
        };
        append_lit(&mut out, "    ");
        let stripped_end = if line_end > pos && bytes[line_end - 1] == 0x0d {
            line_end - 1
        } else {
            line_end
        };
        let mut i: usize = pos;
        let ghost line_base = out@;
        while i < stripped_end
            invariant
                pos <= i <= stripped_end <= n,
                n == bytes@.len(),
                out@ =~= line_base + bytes@.subrange(pos as int, i as int),
            decreases stripped_end - i,
        {
            out.push(bytes[i]);
            proof {
                assert(out@ =~= line_base + bytes@.subrange(pos as int, i + 1));
            }
            i = i + 1;
        }
        out.push(0x0a);
        proof {
            let s = bytes@;
            match spec_first_nl(s, pos as int) {
                Option::None => {
                    assert(line_end == n);
                    assert(spec_strip_cr(s.subrange(pos as int, s.len() as int)) =~= s.subrange(
                        pos as int,
                        stripped_end as int,
                    ));
                },
                Option::Some(nl) => {
                    assert(line_end == nl);
                    assert(spec_strip_cr(s.subrange(pos as int, nl as int)) =~= s.subrange(
                        pos as int,
                        stripped_end as int,
                    ));
                },
            }
        }
        pos = if line_end < n {
            line_end + 1
        } else {
            n
        };
    }
    proof {
        assert(spec_indent_from(bytes@, n as int) =~= Seq::<u8>::empty());
        assert(out@ + Seq::<u8>::empty() =~= out@);
    }
    out
}

/// The evaluator-side runtime that accompanies every payload: per-script
/// continuation state, the script-facing globals, the cooperative `wait`,
/// and the result encoder.
pub open spec fn spec_helpers() -> Seq<char> {
    r#"
__host_runtime = __host_runtime or {}
local __host_current_state = nil

local function __host_get_state(chunk)
    local state = __host_runtime[chunk]
    if not state then
        state = {
            thread = nil,
            objects = {},
            object_order = {},
            input = { keys = {}, buttons = {}, mouse = { x = 0, y = 0 } },
            viewport = { width = 0, height = 0 },
            changes = {},
            object_cache = {},
        }
        __host_runtime[chunk] = state
    end
    state.changes = {}
    state.object_cache = state.object_cache or {}
    return state
end

local function __host_set_current(state)
    __host_current_state = state
end

local function __copy_vec3(v)
    return { x = v.x, y = v.y, z = v.z }
end

local function __copy_color(v)
    return { x = v.x, y = v.y, z = v.z }
end

local function __record_change(name, field, value)
    local state = __host_current_state
    if not state then
        return
    end
    local changes = state.changes
    changes[#changes + 1] = { object = name, field = field, value = value }
end

Vector3 = Vector3 or {}
function Vector3.new(x, y, z)
    return { X = x, Y = y, Z = z, x = x, y = y, z = z }
end

Vector2 = Vector2 or {}
function Vector2.new(x, y)
    return { X = x, Y = y, x = x, y = y }
end

Color3 = Color3 or {}
function Color3.new(r, g, b)
    return { R = r, G = g, B = b, r = r, g = g, b = b }
end

local function __to_vec3(value)
    if type(value) ~= "table" then
        return nil
    end
    local x = value.x or value.X
    local y = value.y or value.Y
    local z = value.z or value.Z
    if type(x) ~= "number" or type(y) ~= "number" or type(z) ~= "number" then
        return nil
    end
    return { x = x, y = y, z = z }
end

local function __to_color3(value)
    if type(value) ~= "table" then
        return nil
    end
    local r = value.r or value.R
    local g = value.g or value.G
    local b = value.b or value.B
    if type(r) ~= "number" or type(g) ~= "number" or type(b) ~= "number" then
        return nil
    end
    return { x = r / 255, y = g / 255, z = b / 255 }
end

local function __wrap_object(name)
    local state = __host_current_state
    if not state then
        return nil
    end
    if state.object_cache[name] then
        return state.object_cache[name]
    end
    local proxy = {}
    local meta = {}
    function meta.__index(_, key)
        local data = state.objects[name]
        if not data then
            return nil
        end
        if key == "name" then
            return data.name
        elseif key == "position" then
            return Vector3.new(data.position.x, data.position.y, data.position.z)
        elseif key == "rotation" then
            return Vector3.new(data.rotation.x, data.rotation.y, data.rotation.z)
        elseif key == "scale" then
            return Vector3.new(data.scale.x, data.scale.y, data.scale.z)
        elseif key == "color" then
            return Color3.new(data.color.x * 255, data.color.y * 255, data.color.z * 255)
        elseif key == "fov" then
            return data.fov
        elseif key == "intensity" then
            return data.intensity
        elseif key == "type" then
            return data.type
        elseif key == "mesh" then
            return data.mesh
        end
        return rawget(proxy, key)
    end
    function meta.__newindex(_, key, value)
        local data = state.objects[name]
        if not data then
            return
        end
        if key == "position" then
            local vec = __to_vec3(value)
            if vec then
                data.position = vec
                __record_change(name, "position", __copy_vec3(vec))
            end
        elseif key == "rotation" then
            local vec = __to_vec3(value)
            if vec then
                data.rotation = vec
                __record_change(name, "rotation", __copy_vec3(vec))
            end
        elseif key == "scale" then
            local vec = __to_vec3(value)
            if vec then
                data.scale = vec
                __record_change(name, "scale", __copy_vec3(vec))
            end
        elseif key == "color" then
            local col = __to_color3(value)
            if col then
                data.color = col
                __record_change(name, "color", __copy_color(col))
            end
        elseif key == "fov" and type(value) == "number" then
            data.fov = value
            __record_change(name, "fov", value)
        elseif key == "intensity" and type(value) == "number" then
            data.intensity = value
            __record_change(name, "intensity", value)
        else
            rawset(proxy, key, value)
        end
    end
    state.object_cache[name] = setmetatable(proxy, meta)
    return state.object_cache[name]
end

scene = scene or {}
local scene_meta = getmetatable(scene) or {}
function scene_meta.__index(_, key)
    return __wrap_object(key)
end
setmetatable(scene, scene_meta)

function scene.get(name)
    return __wrap_object(name)
end

function scene.names()
    local state = __host_current_state
    if not state then
        return {}
    end
    local result = {}
    for index, name in ipairs(state.object_order) do
        result[index] = name
    end
    return result
end

place = scene

service = service or {}
service.input = service.input or {}

local function __normalize_name(name)
    if type(name) ~= "string" then
        return nil
    end
    return name
end

function service.input:GetKeyDown(name)
    name = __normalize_name(name)
    if not name then
        return false
    end
    local state = __host_current_state
    if not state then
        return false
    end
    return state.input.keys[name] or false
end

function service.input:GetMousePosition()
    local state = __host_current_state
    if not state then
        return Vector2.new(0, 0)
    end
    return Vector2.new(state.input.mouse.x, state.input.mouse.y)
end

screen = screen or {}
function screen:GetViewportSize()
    local state = __host_current_state
    if not state then
        return Vector2.new(0, 0)
    end
    return Vector2.new(state.viewport.width, state.viewport.height)
end

function wait(duration)
    duration = tonumber(duration) or 0
    if duration < 0 then
        duration = 0
    end
    return coroutine.yield(duration)
end

local function __escape(str)
    str = string.gsub(str, "\\", "\\\\")
    str = string.gsub(str, '"', '\\"')
    str = string.gsub(str, "\n", "\\n")
    str = string.gsub(str, "\r", "\\r")
    str = string.gsub(str, "\t", "\\t")
    return str
end

local function __encode(value)
    local kind = type(value)
    if kind == "string" then
        return '"' .. __escape(value) .. '"'
    elseif kind == "number" or kind == "boolean" then
        return tostring(value)
    elseif kind == "table" then
        local is_array = (#value > 0)
        local parts = {}
        if is_array then
            for i = 1, #value do
                parts[i] = __encode(value[i])
            end
            return "[" .. table.concat(parts, ",") .. "]"
        else
            for k, v in pairs(value) do
                parts[#parts + 1] = '"' .. __escape(tostring(k)) .. '":' .. __encode(v)
            end
            return "{" .. table.concat(parts, ",") .. "}"
        end
    end
    return "null"
end

local function __host_emit_result(result)
    print("__HOST_RESULT__:" .. __encode(result))
end

local function __host_run_script(chunk, script_fn, objects, order, input, viewport)
    local state = __host_get_state(chunk)
    state.objects = objects
    state.object_order = order
    state.input = input
    state.viewport = viewport
    __host_set_current(state)

    if not state.thread or coroutine.status(state.thread) == "dead" then
        state.thread = coroutine.create(function()
            local ok, err = pcall(script_fn)
            if not ok then
                error(err)
            end
        end)
    end

    local thread = state.thread
    if not thread or coroutine.status(thread) == "dead" then
        state.thread = nil
        return { changes = state.changes, wait = 0, finished = true }
    end

    local ok, wait_time = coroutine.resume(thread, 0)
    if not ok then
        state.thread = nil
        error(wait_time)
    end

    local finished = coroutine.status(thread) == "dead"
    local wait_ms = 0
    if finished then
        state.thread = nil
    else
        wait_ms = tonumber(wait_time) or 0
        if wait_ms < 0 then
            wait_ms = 0
        end
    end

    return { changes = state.changes, wait = wait_ms, finished = finished }
end
"#@
}

/// The runtime helper text.
pub fn luau_helpers() -> (r: &'static str)
    ensures
        r@ == spec_helpers(),
{
    r#"
__host_runtime = __host_runtime or {}
local __host_current_state = nil

local function __host_get_state(chunk)
    local state = __host_runtime[chunk]
    if not state then
        state = {
            thread = nil,
            objects = {},
            object_order = {},
            input = { keys = {}, buttons = {}, mouse = { x = 0, y = 0 } },
            viewport = { width = 0, height = 0 },
            changes = {},
            object_cache = {},
        }
        __host_runtime[chunk] = state
    end
    state.changes = {}
    state.object_cache = state.object_cache or {}
    return state
end

local function __host_set_current(state)
    __host_current_state = state
end

local function __copy_vec3(v)
    return { x = v.x, y = v.y, z = v.z }
end

local function __copy_color(v)
    return { x = v.x, y = v.y, z = v.z }
end

local function __record_change(name, field, value)
    local state = __host_current_state
    if not state then
        return
    end
    local changes = state.changes
    changes[#changes + 1] = { object = name, field = field, value = value }
end

Vector3 = Vector3 or {}
function Vector3.new(x, y, z)
    return { X = x, Y = y, Z = z, x = x, y = y, z = z }
end

Vector2 = Vector2 or {}
function Vector2.new(x, y)
    return { X = x, Y = y, x = x, y = y }
end

Color3 = Color3 or {}
function Color3.new(r, g, b)
    return { R = r, G = g, B = b, r = r, g = g, b = b }
end

local function __to_vec3(value)
    if type(value) ~= "table" then
        return nil
    end
    local x = value.x or value.X
    local y = value.y or value.Y
    local z = value.z or value.Z
    if type(x) ~= "number" or type(y) ~= "number" or type(z) ~= "number" then
        return nil
    end
    return { x = x, y = y, z = z }
end

local function __to_color3(value)
    if type(value) ~= "table" then
        return nil
    end
    local r = value.r or value.R
    local g = value.g or value.G
    local b = value.b or value.B
    if type(r) ~= "number" or type(g) ~= "number" or type(b) ~= "number" then
        return nil
    end
    return { x = r / 255, y = g / 255, z = b / 255 }
end

local function __wrap_object(name)
    local state = __host_current_state
    if not state then
        return nil
    end
    if state.object_cache[name] then
        return state.object_cache[name]
    end
    local proxy = {}
    local meta = {}
    function meta.__index(_, key)
        local data = state.objects[name]
        if not data then
            return nil
        end
        if key == "name" then
            return data.name
        elseif key == "position" then
            return Vector3.new(data.position.x, data.position.y, data.position.z)
        elseif key == "rotation" then
            return Vector3.new(data.rotation.x, data.rotation.y, data.rotation.z)
        elseif key == "scale" then
            return Vector3.new(data.scale.x, data.scale.y, data.scale.z)
        elseif key == "color" then
            return Color3.new(data.color.x * 255, data.color.y * 255, data.color.z * 255)
        elseif key == "fov" then
            return data.fov
        elseif key == "intensity" then
            return data.intensity
        elseif key == "type" then
            return data.type
        elseif key == "mesh" then
            return data.mesh
        end
        return rawget(proxy, key)
    end
    function meta.__newindex(_, key, value)
        local data = state.objects[name]
        if not data then
            return
        end
        if key == "position" then
            local vec = __to_vec3(value)
            if vec then
                data.position = vec
                __record_change(name, "position", __copy_vec3(vec))
            end
        elseif key == "rotation" then
            local vec = __to_vec3(value)
            if vec then
                data.rotation = vec
                __record_change(name, "rotation", __copy_vec3(vec))
            end
        elseif key == "scale" then
            local vec = __to_vec3(value)
            if vec then
                data.scale = vec
                __record_change(name, "scale", __copy_vec3(vec))
            end
        elseif key == "color" then
            local col = __to_color3(value)
            if col then
                data.color = col
                __record_change(name, "color", __copy_color(col))
            end
        elseif key == "fov" and type(value) == "number" then
            data.fov = value
            __record_change(name, "fov", value)
        elseif key == "intensity" and type(value) == "number" then
            data.intensity = value
            __record_change(name, "intensity", value)
        else
            rawset(proxy, key, value)
        end
    end
    state.object_cache[name] = setmetatable(proxy, meta)
    return state.object_cache[name]
end

scene = scene or {}
local scene_meta = getmetatable(scene) or {}
function scene_meta.__index(_, key)
    return __wrap_object(key)
end
setmetatable(scene, scene_meta)

function scene.get(name)
    return __wrap_object(name)
end

function scene.names()
    local state = __host_current_state
    if not state then
        return {}
    end
    local result = {}
    for index, name in ipairs(state.object_order) do
        result[index] = name
    end
    return result
end

place = scene

service = service or {}
service.input = service.input or {}

local function __normalize_name(name)
    if type(name) ~= "string" then
        return nil
    end
    return name
end

function service.input:GetKeyDown(name)
    name = __normalize_name(name)
    if not name then
        return false
    end
    local state = __host_current_state
    if not state then
        return false
    end
    return state.input.keys[name] or false
end

function service.input:GetMousePosition()
    local state = __host_current_state
    if not state then
        return Vector2.new(0, 0)
    end
    return Vector2.new(state.input.mouse.x, state.input.mouse.y)
end

screen = screen or {}
function screen:GetViewportSize()
    local state = __host_current_state
    if not state then
        return Vector2.new(0, 0)
    end
    return Vector2.new(state.viewport.width, state.viewport.height)
end

function wait(duration)
    duration = tonumber(duration) or 0
    if duration < 0 then
        duration = 0
    end
    return coroutine.yield(duration)
end

local function __escape(str)
    str = string.gsub(str, "\\", "\\\\")
    str = string.gsub(str, '"', '\\"')
    str = string.gsub(str, "\n", "\\n")
    str = string.gsub(str, "\r", "\\r")
    str = string.gsub(str, "\t", "\\t")
    return str
end

local function __encode(value)
    local kind = type(value)
    if kind == "string" then
        return '"' .. __escape(value) .. '"'
    elseif kind == "number" or kind == "boolean" then
        return tostring(value)
    elseif kind == "table" then
        local is_array = (#value > 0)
        local parts = {}
        if is_array then
            for i = 1, #value do
                parts[i] = __encode(value[i])
            end
            return "[" .. table.concat(parts, ",") .. "]"
        else
            for k, v in pairs(value) do
                parts[#parts + 1] = '"' .. __escape(tostring(k)) .. '":' .. __encode(v)
            end
            return "{" .. table.concat(parts, ",") .. "}"
        end
    end
    return "null"
end

local function __host_emit_result(result)
    print("__HOST_RESULT__:" .. __encode(result))
end

local function __host_run_script(chunk, script_fn, objects, order, input, viewport)
    local state = __host_get_state(chunk)
    state.objects = objects
    state.object_order = order
    state.input = input
    state.viewport = viewport
    __host_set_current(state)

    if not state.thread or coroutine.status(state.thread) == "dead" then
        state.thread = coroutine.create(function()
            local ok, err = pcall(script_fn)
            if not ok then
                error(err)
            end
        end)
    end

    local thread = state.thread
    if not thread or coroutine.status(thread) == "dead" then
        state.thread = nil
        return { changes = state.changes, wait = 0, finished = true }
    end

    local ok, wait_time = coroutine.resume(thread, 0)
    if not ok then
        state.thread = nil
        error(wait_time)
    end

    local finished = coroutine.status(thread) == "dead"
    local wait_ms = 0
    if finished then
        state.thread = nil
    else
        wait_ms = tonumber(wait_time) or 0
        if wait_ms < 0 then
            wait_ms = 0
        end
    end

    return { changes = state.changes, wait = wait_ms, finished = finished }
end
"#
}

/// The whole payload of one tick: the chunk name, the serialized scene,
/// input and viewport, the runtime helpers, and the user script wrapped in
/// the host entry function.
pub open spec fn spec_build_payload(
    objs: Seq<ObjView>,
    input: InputView,
    width: u32,
    height: u32,
    script: Seq<char>,
    chunk: Seq<char>,
) -> Seq<u8> {
    lit("local __chunk_name = "@) + spec_quoted(chunk) + seq![0x0au8] + spec_object_table(objs)
        + spec_input_snapshot(input) + spec_viewport(width, height) + lit(spec_helpers()) + lit(
        "\nlocal function __host_script()\n"@,
    ) + spec_indent_from(encode_utf8(script), 0) + lit(
        "\nend\n__host_emit_result(__host_run_script(__chunk_name, __host_script, __objects, __object_order, __input, __viewport))\n"@,
    )
}

/// Builds the self-contained payload for one tick of one script.
#[verifier::rlimit(100)]
pub fn build_script_payload(
    objects: &Vec<SceneObject>,
    input: &InputSnapshot,
    width: u32,
    height: u32,
    script: &str,
    chunk: &str,
) -> (r: Vec<u8>)
    ensures
        r@ == spec_build_payload(
            objects@.map_values(|o: SceneObject| o@),
            input@,
            width,
            height,
            script@,
            chunk@,
        ),
{
    let mut out: Vec<u8> = Vec::new();
    append_lit(&mut out, "local __chunk_name = ");
    let mut chunk_name = luau_string(chunk);
    out.append(&mut chunk_name);
    out.push(0x0a);
    emit_object_table(&mut out, objects);
    emit_input_snapshot(&mut out, input);
    emit_viewport(&mut out, width, height);
    append_lit(&mut out, luau_helpers());
    append_lit(&mut out, "\nlocal function __host_script()\n");
    let mut body = indent_script(script);
    out.append(&mut body);
    append_lit(
        &mut out,
        "\nend\n__host_emit_result(__host_run_script(__chunk_name, __host_script, __objects, __object_order, __input, __viewport))\n",
    );
    proof {
        assert(out@ =~= spec_build_payload(
            objects@.map_values(|o: SceneObject| o@),
            input@,
            width,
            height,
            script@,
            chunk@,
        ));
    }
    out
}

} // verus!
