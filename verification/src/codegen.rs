//! Shader source for a scene: the scene's shape evaluation unrolled into two WGSL
//! functions, placed between a fixed preamble and postamble.  The generated code
//! indexes the uniform array of shapes, so only the number of shapes matters.
use vstd::prelude::*;
use crate::flat::{shader_shape_count, visible_shapes};
use crate::scene::SdfScene;
use crate::text::{decimal, push_char, push_decimal};

verus! {

/// `s` followed by a line break.
pub open spec fn line(s: Seq<char>) -> Seq<char> {
    s.push('\n')
}

/// The line that binds shape `i` of the uniform array to `s`.
pub open spec fn bind_line(i: nat) -> Seq<char> {
    line("        let s = params.shapes["@ + decimal(i) + "u];"@)
}

/// Block that folds shape `i` into the distance.
pub open spec fn scene_block(i: nat) -> Seq<char> {
    line("    {"@) + bind_line(i) + line("        let d_s = eval_shape(p, s);"@)
        + line("        d = combine_blend(d, d_s, s.combination_op, s.smooth_k).x;"@) + line("    }"@)
}

/// Blocks for shapes `1 .. n`, in order.
pub open spec fn scene_blocks(n: nat) -> Seq<char>
    decreases n,
{
    if n <= 1 { Seq::empty() } else { scene_blocks((n - 1) as nat) + scene_block((n - 1) as nat) }
}

/// The distance-only scene function for `count` shapes.
pub open spec fn scene_fn_text(count: nat) -> Seq<char> {
    line("// --- Generated: distance-only scene evaluation ---"@) + line("fn sdf_scene(p: vec3<f32>) -> f32 {"@)
        + line("    var d = eval_shape(p, params.shapes[0]);"@) + scene_blocks(count) + line("    return d;"@)
        + line("}"@)
}

/// Block that folds shape `i` into the distance and blends its material in.
pub open spec fn material_block(i: nat) -> Seq<char> {
    line("    {"@) + bind_line(i) + line("        let d_s = eval_shape(p, s);"@)
        + line("        let blend = combine_blend(d, d_s, s.combination_op, s.smooth_k);"@)
        + line("        let t = blend.y;"@) + line("        d = blend.x;"@)
        + line("        result.color = mix(result.color, get_shape_color(s, p), t);"@)
        + line("        result.roughness = mix(result.roughness, s.roughness, t);"@)
        + line("        result.metallic = mix(result.metallic, s.metallic, t);"@)
        + line("        result.fresnel_power = mix(result.fresnel_power, s.fresnel_power, t);"@)
        + line("        if t > 0.5 { result.color_mode = s.color_mode; }"@) + line("    }"@)
}

/// The line that blends material field `field` of the running result toward the shape's
/// value `value` by the blend weight `t`.
pub open spec fn mix_toward(field: Seq<char>, value: Seq<char>) -> Seq<char> {
    line("        result."@ + field + " = mix(result."@ + field + ", "@ + value + ", t);"@)
}

/// `text` holds `part` somewhere, as consecutive characters.
pub open spec fn holds_text(text: Seq<char>, part: Seq<char>) -> bool {
    exists|k: int| 0 <= k && k + part.len() <= text.len() && #[trigger] text.subrange(k, k + part.len()) == part
}

/// Every material block blends each material field from the running result toward the
/// shape's own value by the blend weight: colour toward the shape's colour at the point,
/// roughness, metallic and Fresnel power toward the shape's fields.
pub proof fn law_material_blends_toward_shape(i: nat)
    ensures
        holds_text(material_block(i), mix_toward("color"@, "get_shape_color(s, p)"@)),
        holds_text(material_block(i), mix_toward("roughness"@, "s.roughness"@)),
        holds_text(material_block(i), mix_toward("metallic"@, "s.metallic"@)),
        holds_text(material_block(i), mix_toward("fresnel_power"@, "s.fresnel_power"@)),
{
    let a = line("    {"@) + bind_line(i) + line("        let d_s = eval_shape(p, s);"@)
        + line("        let blend = combine_blend(d, d_s, s.combination_op, s.smooth_k);"@)
        + line("        let t = blend.y;"@) + line("        d = blend.x;"@);
    let lc = line("        result.color = mix(result.color, get_shape_color(s, p), t);"@);
    let lr = line("        result.roughness = mix(result.roughness, s.roughness, t);"@);
    let lm = line("        result.metallic = mix(result.metallic, s.metallic, t);"@);
    let lf = line("        result.fresnel_power = mix(result.fresnel_power, s.fresnel_power, t);"@);
    let rest = line("        if t > 0.5 { result.color_mode = s.color_mode; }"@) + line("    }"@);
    let m = material_block(i);
    assert(m == a + lc + lr + lm + lf + rest);
    reveal_strlit("        result.");
    reveal_strlit(" = mix(result.");
    reveal_strlit(", ");
    reveal_strlit(", t);");
    reveal_strlit("color");
    reveal_strlit("get_shape_color(s, p)");
    reveal_strlit("roughness");
    reveal_strlit("s.roughness");
    reveal_strlit("metallic");
    reveal_strlit("s.metallic");
    reveal_strlit("fresnel_power");
    reveal_strlit("s.fresnel_power");
    reveal_strlit("        result.color = mix(result.color, get_shape_color(s, p), t);");
    reveal_strlit("        result.roughness = mix(result.roughness, s.roughness, t);");
    reveal_strlit("        result.metallic = mix(result.metallic, s.metallic, t);");
    reveal_strlit("        result.fresnel_power = mix(result.fresnel_power, s.fresnel_power, t);");
    let mc = mix_toward("color"@, "get_shape_color(s, p)"@);
    let mr = mix_toward("roughness"@, "s.roughness"@);
    let mm = mix_toward("metallic"@, "s.metallic"@);
    let mf = mix_toward("fresnel_power"@, "s.fresnel_power"@);
    assert(mc =~= lc);
    assert(mr =~= lr);
    assert(mm =~= lm);
    assert(mf =~= lf);
    let k0 = a.len() as int;
    let k1 = k0 + lc.len();
    let k2 = k1 + lr.len();
    let k3 = k2 + lm.len();
    assert(m.subrange(k0, k0 + mc.len()) =~= mc);
    assert(m.subrange(k1, k1 + mr.len()) =~= mr);
    assert(m.subrange(k2, k2 + mm.len()) =~= mm);
    assert(m.subrange(k3, k3 + mf.len()) =~= mf);
}

/// Material blocks for shapes `1 .. n`, in order.
pub open spec fn material_blocks(n: nat) -> Seq<char>
    decreases n,
{
    if n <= 1 { Seq::empty() } else { material_blocks((n - 1) as nat) + material_block((n - 1) as nat) }
}

/// Opening of the material scene function, up to the first shape's distance.
pub open spec fn material_head() -> Seq<char> {
    line(""@) + line("// --- Generated: material scene evaluation ---"@)
        + line("fn sdf_scene_material(p: vec3<f32>) -> MatResult {"@) + line("    let s0 = params.shapes[0];"@)
        + line("    var result = MatResult("@) + line("        get_shape_color(s0, p),"@)
        + line("        s0.roughness,"@) + line("        s0.metallic,"@) + line("        s0.fresnel_power,"@)
        + line("        s0.color_mode,"@) + line("    );"@) + line("    var d = eval_shape(p, s0);"@)
}

/// The material scene function for `count` shapes.
pub open spec fn material_fn_text(count: nat) -> Seq<char> {
    material_head() + material_blocks(count) + line("    return result;"@) + line("}"@)
}

/// The whole shader for `count` shapes.
pub open spec fn shader_text(preamble: Seq<char>, postamble: Seq<char>, count: nat) -> Seq<char> {
    preamble.push('\n') + scene_fn_text(count) + material_fn_text(count) + postamble
}

/// Append `s` and a line break.
fn push_line(out: &mut String, s: &str)
    ensures
        final(out)@ == old(out)@ + line(s@),
{
    out.append(s);
    push_char(out, '\n');
    assert(final(out)@ =~= old(out)@ + line(s@));
}

/// Append the line binding shape `i`.
fn push_bind_line(out: &mut String, i: usize)
    ensures
        final(out)@ == old(out)@ + bind_line(i as nat),
{
    let ghost o = out@;
    out.append("        let s = params.shapes[");
    push_decimal(out, i as u64);
    out.append("u];");
    push_char(out, '\n');
    assert(out@ =~= o + bind_line(i as nat));
}

/// Append the distance-only scene function for `count` shapes.
pub fn write_sdf_scene(out: &mut String, count: usize) -> (r: Result<(), String>)
    ensures
        r is Ok,
        final(out)@ == old(out)@ + scene_fn_text(count as nat),
{
    let ghost o = out@;
    push_line(out, "// --- Generated: distance-only scene evaluation ---");
    push_line(out, "fn sdf_scene(p: vec3<f32>) -> f32 {");
    push_line(out, "    var d = eval_shape(p, params.shapes[0]);");
    let ghost head = out@;
    let mut i: usize = 1;
    assert(scene_blocks(1) =~= Seq::<char>::empty());
    assert(head =~= head + scene_blocks(1));
    while i < count
        invariant
            1 <= i,
            count >= 1 ==> i <= count,
            count <= 1 ==> i == 1,
            out@ == head + scene_blocks(i as nat),
        decreases count - i,
    {
        let ghost before = out@;
        push_line(out, "    {");
        push_bind_line(out, i);
        push_line(out, "        let d_s = eval_shape(p, s);");
        push_line(out, "        d = combine_blend(d, d_s, s.combination_op, s.smooth_k).x;");
        push_line(out, "    }");
        assert(scene_blocks((i + 1) as nat) == scene_blocks(i as nat) + scene_block(i as nat));
        assert(out@ =~= before + scene_block(i as nat));
        assert(out@ =~= head + scene_blocks((i + 1) as nat));
        i += 1;
    }
    let ghost mid = out@;
    assert(mid == head + scene_blocks(count as nat)) by {
        if count <= 1 {
            assert(scene_blocks(count as nat) =~= Seq::<char>::empty());
            assert(scene_blocks(i as nat) =~= Seq::<char>::empty());
        }
    }
    push_line(out, "    return d;");
    push_line(out, "}");
    assert(out@ =~= o + scene_fn_text(count as nat));
    Ok(())
}

/// Append the opening of the material scene function.
fn write_material_head(out: &mut String)
    ensures
        final(out)@ == old(out)@ + material_head(),
{
    let ghost o = out@;
    push_line(out, "");
    push_line(out, "// --- Generated: material scene evaluation ---");
    push_line(out, "fn sdf_scene_material(p: vec3<f32>) -> MatResult {");
    push_line(out, "    let s0 = params.shapes[0];");
    push_line(out, "    var result = MatResult(");
    push_line(out, "        get_shape_color(s0, p),");
    push_line(out, "        s0.roughness,");
    push_line(out, "        s0.metallic,");
    push_line(out, "        s0.fresnel_power,");
    push_line(out, "        s0.color_mode,");
    push_line(out, "    );");
    push_line(out, "    var d = eval_shape(p, s0);");
    assert(out@ =~= o + material_head());
}

/// Append the material block of shape `i`.
fn write_material_block(out: &mut String, i: usize)
    ensures
        final(out)@ == old(out)@ + material_block(i as nat),
{
    let ghost o = out@;
    push_line(out, "    {");
    push_bind_line(out, i);
    push_line(out, "        let d_s = eval_shape(p, s);");
    push_line(out, "        let blend = combine_blend(d, d_s, s.combination_op, s.smooth_k);");
    push_line(out, "        let t = blend.y;");
    push_line(out, "        d = blend.x;");
    push_line(out, "        result.color = mix(result.color, get_shape_color(s, p), t);");
    push_line(out, "        result.roughness = mix(result.roughness, s.roughness, t);");
    push_line(out, "        result.metallic = mix(result.metallic, s.metallic, t);");
    push_line(out, "        result.fresnel_power = mix(result.fresnel_power, s.fresnel_power, t);");
    push_line(out, "        if t > 0.5 { result.color_mode = s.color_mode; }");
    push_line(out, "    }");
    assert(out@ =~= o + material_block(i as nat));
}

/// Append the material scene function for `count` shapes.
pub fn write_sdf_scene_material(out: &mut String, count: usize) -> (r: Result<(), String>)
    ensures
        r is Ok,
        final(out)@ == old(out)@ + material_fn_text(count as nat),
{
    let ghost o = out@;
    write_material_head(out);
    let ghost head = out@;
    let mut i: usize = 1;
    assert(material_blocks(1) =~= Seq::<char>::empty());
    assert(head =~= head + material_blocks(1));
    while i < count
        invariant
            1 <= i,
            count >= 1 ==> i <= count,
            count <= 1 ==> i == 1,
            out@ == head + material_blocks(i as nat),
        decreases count - i,
    {
        let ghost before = out@;
        write_material_block(out, i);
        assert(material_blocks((i + 1) as nat) == material_blocks(i as nat) + material_block(i as nat));
        assert(out@ =~= head + material_blocks((i + 1) as nat));
        i += 1;
    }
    assert(out@ == head + material_blocks(count as nat)) by {
        if count <= 1 {
            assert(material_blocks(count as nat) =~= Seq::<char>::empty());
            assert(material_blocks(i as nat) =~= Seq::<char>::empty());
        }
    }
    push_line(out, "    return result;");
    push_line(out, "}");
    assert(out@ =~= o + material_fn_text(count as nat));
    Ok(())
}

/// The complete shader for the scene: the preamble and a line break, the two generated
/// scene functions for its drawn shapes, then the postamble.  A scene that draws no
/// shape gives the error `"empty scene — no shapes to render"`.
pub fn generate_shader(scene: &SdfScene, preamble: &str, postamble: &str) -> (r: Result<String, String>)
    ensures
        visible_shapes(scene@.root_bone).len() == 0 ==> r is Err && r->Err_0@ == "empty scene — no shapes to render"@,
        visible_shapes(scene@.root_bone).len() > 0 ==> r is Ok
            && r->Ok_0@ == shader_text(preamble@, postamble@, visible_shapes(scene@.root_bone).len()),
{
    let count = match shader_shape_count(scene) {
        Ok(n) => n,
        Err(e) => return Err(e),
    };
    let mut out = String::from_str(preamble);
    push_char(&mut out, '\n');
    let _ = write_sdf_scene(&mut out, count);
    let _ = write_sdf_scene_material(&mut out, count);
    out.append(postamble);
    assert(out@ =~= shader_text(preamble@, postamble@, count as nat));
    Ok(out)
}

} // verus!
