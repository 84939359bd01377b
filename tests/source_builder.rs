use fsharp_definitions::SourceBuilder;

#[test]
fn builder_pushes_lines() {
    let mut b = SourceBuilder::new("    ".to_string());
    b.push("a");
    b.ln_push("b");
    b.ln_push_1("c");
    assert_eq!(b.finish(), "a\nb\n    c");
}

#[test]
fn builder_default_indent_is_two_spaces() {
    let mut b = SourceBuilder::default();
    b.ln_push_1("x");
    assert_eq!(b.finish(), "\n  x");
}

#[test]
fn builder_splices_with_reindent() {
    let mut outer = SourceBuilder::default();
    let mut inner = outer.new_with_same_settings();
    inner.push("{");
    inner.ln_push("a");
    inner.ln_push("}");
    let mut inner2 = outer.new_with_same_settings();
    inner2.push("x");
    inner2.ln_push("y");
    let mut inner3 = outer.new_with_same_settings();
    inner3.ln_push("z");
    outer.push("start");
    outer.push_source_1(inner);
    outer.push_source_2(inner2);
    outer.push_source(inner3);
    assert_eq!(outer.finish(), "start{\n  a\n  }x\n    y\nz");
}

#[test]
fn builder_todo_and_simple() {
    assert_eq!(SourceBuilder::todo("derive_struct_unit").finish(), "(* TODO: derive_struct_unit *)");
    assert_eq!(SourceBuilder::simple("int64").finish(), "int64(* simple *)");
}

#[test]
fn builder_keeps_all_content() {
    let mut b = SourceBuilder::new("\t".to_string());
    let mut other = b.new_with_same_settings();
    other.push("one\ntwo\n");
    b.push_source_1(other);
    assert_eq!(b.finish(), "one\n\ttwo\n\t");
}
