use build_wrap::model::WrapError;
use build_wrap::wrapper::{main_rs, wrapper_unit, CARGO_TOML, EMBED_HEAD, EMBED_TAIL, SHIM_RS};

#[test]
fn main_rs_embeds_the_path() {
    let source = main_rs("/target/debug/build/x-1/build_script_build-1");
    let expected = [
        SHIM_RS,
        EMBED_HEAD,
        "/target/debug/build/x-1/build_script_build-1",
        EMBED_TAIL,
    ]
    .concat();
    assert_eq!(source, expected.into_bytes());
    let text = String::from_utf8(source).unwrap();
    assert!(text.contains("include_bytes!(\"/target/debug/build/x-1/build_script_build-1\")"));
    assert!(text.contains("fn main()"));
}

#[test]
fn main_rs_escapes_quotes_and_backslashes() {
    let source = String::from_utf8(main_rs("/a\"b\\c")).unwrap();
    assert!(source.contains("include_bytes!(\"/a\\\"b\\\\c\")"));
}

#[test]
fn packaging_twice_gives_the_same_unit() {
    let first = wrapper_unit(b"/t/build_script_build-9").unwrap();
    let second = wrapper_unit(b"/t/build_script_build-9").unwrap();
    assert_eq!(first.manifest, second.manifest);
    assert_eq!(first.main_rs, second.main_rs);
    assert_eq!(first.manifest, CARGO_TOML.as_bytes().to_vec());
    let other = wrapper_unit(b"/u/build_script_build-9").unwrap();
    assert_eq!(first.manifest, other.manifest);
    assert_ne!(first.main_rs, other.main_rs);
    let n = SHIM_RS.len() + EMBED_HEAD.len();
    assert_eq!(first.main_rs[..n], other.main_rs[..n]);
}

#[test]
fn packaging_refuses_non_utf8_path() {
    assert!(matches!(wrapper_unit(&[b'/', 0xff]), Err(WrapError::InvalidPath)));
}
