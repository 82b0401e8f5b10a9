use radiant::program::{insert_template, try_insert_template, Program, Uniform};
use radiant::scalar::Mat4;
use radiant::Error;

#[test]
fn template_follows_the_version_directive() {
    let out = insert_template("#version 140\nvoid main() { }\n", "TEMPLATE\n");
    assert_eq!(out, "#version 140\nTEMPLATE\nvoid main() { }\n");
}

#[test]
fn every_directive_line_receives_the_template() {
    let out = insert_template("#version 140\n#define X 1\nbody\n", "T\n");
    assert_eq!(out, "#version 140\nT\n#define X 1\nT\nbody\n");
}

#[test]
fn last_line_without_break_is_kept_and_terminated() {
    let out = insert_template("#version 140\nvoid main() { }", "T\n");
    assert_eq!(out, "#version 140\nT\nvoid main() { }\n");
}

#[test]
fn carriage_returns_are_normalized() {
    let out = insert_template("#version 140\r\nbody\r\n", "T\n");
    assert_eq!(out, "#version 140\nT\nbody\n");
}

#[test]
fn source_without_directive_is_a_shader_error() {
    let r = try_insert_template("void main() { }\n", "T\n");
    assert!(matches!(r, Err(Error::ShaderError(_))));
    let r = try_insert_template("", "T\n");
    assert!(matches!(r, Err(Error::ShaderError(_))));
    assert!(try_insert_template("#v\n", "T\n").is_ok());
}

#[test]
fn program_composes_both_shader_variants() {
    let p = Program::new("#version 140\nmain\n", "SPRITE\n", "TEXTURE\n")
        .expect("directive present");
    assert_eq!(p.sprite_source(), "#version 140\nSPRITE\nmain\n");
    assert_eq!(p.texture_source(), "#version 140\nTEXTURE\nmain\n");
}

#[test]
fn program_rejects_source_without_directive() {
    let r = Program::new("main\n", "S\n", "T\n");
    assert!(matches!(r, Err(Error::ShaderError(_))));
}

#[test]
fn default_uniforms_are_seeded() {
    let p = Program::from_sources(String::from("a"), String::from("b"));
    assert!(p.get_uniform("u_view").is_some());
    assert_eq!(
        p.get_uniform("u_model"),
        Some(&Uniform::Matrix(Mat4::identity()))
    );
    assert!(p.get_uniform("_rd_color").is_some());
    assert_eq!(p.get_uniform("missing"), None);
}

#[test]
fn set_uniform_binds_and_replaces() {
    let mut p = Program::from_sources(String::from("a"), String::from("b"));
    p.set_uniform("u_strength", Uniform::Unsigned(3));
    assert_eq!(p.get_uniform("u_strength"), Some(&Uniform::Unsigned(3)));
    // Binding the same name again replaces the value.
    p.set_uniform("u_strength", Uniform::Unsigned(8));
    assert_eq!(p.get_uniform("u_strength"), Some(&Uniform::Unsigned(8)));
}

#[test]
fn remove_uniform_reports_whether_bound() {
    let mut p = Program::from_sources(String::from("a"), String::from("b"));
    p.set_uniform("u_x", Uniform::Flag(true));
    assert!(p.remove_uniform("u_x"));
    assert_eq!(p.get_uniform("u_x"), None);
    assert!(!p.remove_uniform("u_x"));
    assert!(!p.remove_uniform("never_bound"));
}

#[test]
fn from_string_matches_new() {
    let a = Program::new("#v\nx\n", "S\n", "T\n").unwrap();
    let b = Program::from_string("#v\nx\n", "S\n", "T\n").unwrap();
    assert_eq!(a.sprite_source(), b.sprite_source());
    assert_eq!(a.texture_source(), b.texture_source());
}
