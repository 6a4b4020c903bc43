use dx12_rs::shaders::{file_stem, is_hlsl_source, profile_for_stem, shader_compile_request};

fn bytes(s: &str) -> Vec<u8> {
    s.as_bytes().to_vec()
}

#[test]
fn vertex_shader_file_becomes_a_compile_request() {
    let r = shader_compile_request(&bytes("TriangleVS.hlsl"), false);
    let (stem, profile) = r.expect("an .hlsl file is compiled");
    assert_eq!(stem, bytes("TriangleVS"));
    assert_eq!(profile, bytes("vs_6_6"));
}

#[test]
fn pixel_shader_tag_is_lowercased_into_the_profile() {
    let r = shader_compile_request(&bytes("Mesh.Shadow.PS.hlsl"), false);
    let (stem, profile) = r.expect("an .hlsl file is compiled");
    assert_eq!(stem, bytes("Mesh.Shadow.PS"));
    assert_eq!(profile, bytes("ps_6_6"));
}

#[test]
fn already_lowercase_tag_is_kept() {
    let profile = profile_for_stem(&bytes("blit_cs"));
    assert_eq!(profile, bytes("cs_6_6"));
}

#[test]
fn directories_are_skipped() {
    assert_eq!(shader_compile_request(&bytes("Nested.hlsl"), true), None);
    assert!(!is_hlsl_source(&bytes("Nested.hlsl"), true));
}

#[test]
fn other_extensions_are_skipped() {
    assert_eq!(shader_compile_request(&bytes("readme.txt"), false), None);
    assert_eq!(shader_compile_request(&bytes("TriangleVS.hlsli"), false), None);
    assert!(!is_hlsl_source(&bytes("shader.HLSL"), false));
}

#[test]
fn names_without_an_extension_are_skipped() {
    assert_eq!(shader_compile_request(&bytes("Makefile"), false), None);
    assert!(!is_hlsl_source(&bytes(""), false));
}

#[test]
fn a_leading_dot_alone_is_no_extension() {
    assert_eq!(shader_compile_request(&bytes(".hlsl"), false), None);
    assert!(!is_hlsl_source(&bytes(".hlsl"), false));
}

#[test]
fn stem_is_the_name_before_the_final_dot() {
    assert_eq!(file_stem(&bytes("TriangleVS.hlsl")), bytes("TriangleVS"));
    assert_eq!(file_stem(&bytes("a.b.c")), bytes("a.b"));
    assert_eq!(file_stem(&bytes("Makefile")), bytes("Makefile"));
    assert_eq!(file_stem(&bytes(".gitignore")), bytes(".gitignore"));
}
