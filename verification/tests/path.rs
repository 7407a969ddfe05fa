use artichoke_backend::path::{locate, normalize, parent_of};

#[test]
fn normalize_drops_dots_and_empty_components() {
    assert_eq!(normalize(b"/foo/bar"), b"/foo/bar");
    assert_eq!(normalize(b"/foo//bar/"), b"/foo/bar");
    assert_eq!(normalize(b"/foo/./bar"), b"/foo/bar");
    assert_eq!(normalize(b"/foo/bar/../baz.rb"), b"/foo/baz.rb");
    assert_eq!(normalize(b"/foo/bar/../../.."), b"/");
    assert_eq!(normalize(b"/.."), b"/");
    assert_eq!(normalize(b""), b"/");
    assert_eq!(normalize(b"/"), b"/");
    assert_eq!(normalize(b"foo"), b"/foo");
    assert_eq!(normalize(b"/foo/.../bar"), b"/foo/.../bar");
    assert_eq!(normalize(b"/foo/..rb"), b"/foo/..rb");
}

#[test]
fn locate_puts_relative_names_below_the_base() {
    assert_eq!(locate(b"/src/lib", b"source.rb"), b"/src/lib/source.rb");
    assert_eq!(locate(b"/src/lib", b"/foo/bar/source.rb"), b"/foo/bar/source.rb");
    assert_eq!(locate(b"/foo/bar", b"../bar.rb"), b"/foo/bar.rb");
    assert_eq!(locate(b"/src/lib", b""), b"/src/lib");
    assert_eq!(locate(b"/", b"a/b"), b"/a/b");
}

#[test]
fn parent_is_the_directory() {
    assert_eq!(parent_of(b"/foo/bar/source.rb"), b"/foo/bar");
    assert_eq!(parent_of(b"/source.rb"), b"/");
    assert_eq!(parent_of(b"(eval)"), b"/");
    assert_eq!(parent_of(b"/"), b"/");
}
