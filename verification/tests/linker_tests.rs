use somehal::arch::{resolve, Arch};
use somehal::linker::{gen_linker_script, output_format, replace};

fn holds(hay: &[u8], needle: &[u8]) -> bool {
    needle.is_empty() || hay.windows(needle.len()).any(|w| w == needle)
}

#[test]
fn output_formats() {
    assert_eq!(output_format(Arch::X86_64), "i386:x86-64");
    assert_eq!(output_format(Arch::Riscv64), "riscv");
    assert_eq!(output_format(Arch::Aarch64), "Aarch64");
}

#[test]
fn aarch64_format_is_the_debug_name_of_the_family() {
    assert_eq!(output_format(Arch::Aarch64), format!("{:?}", Arch::Aarch64));
}

#[test]
fn script_replaces_every_placeholder() {
    let template = b"OUTPUT_ARCH(%ARCH%)\nENTRY(_start)\n/* %ARCH% */\n";
    let params = resolve("riscv64", false).unwrap();
    assert_eq!(
        gen_linker_script(&params, template),
        b"OUTPUT_ARCH(riscv)\nENTRY(_start)\n/* riscv */\n".to_vec()
    );
    let params = resolve("x86_64", false).unwrap();
    assert_eq!(
        gen_linker_script(&params, template),
        b"OUTPUT_ARCH(i386:x86-64)\nENTRY(_start)\n/* i386:x86-64 */\n".to_vec()
    );
    let params = resolve("aarch64", false).unwrap();
    assert_eq!(
        gen_linker_script(&params, template),
        b"OUTPUT_ARCH(Aarch64)\nENTRY(_start)\n/* Aarch64 */\n".to_vec()
    );
}

#[test]
fn script_is_the_same_each_time() {
    let template = b"SECTIONS { } OUTPUT_ARCH(%ARCH%) %ARCH%%ARCH%";
    for name in ["aarch64", "riscv64", "x86_64"] {
        let params = resolve(name, false).unwrap();
        let first = gen_linker_script(&params, template);
        let second = gen_linker_script(&params, template);
        assert_eq!(first, second);
    }
}

#[test]
fn riscv_script_does_not_depend_on_the_width() {
    let template = b"OUTPUT_ARCH(%ARCH%)";
    let wide = gen_linker_script(&resolve("riscv64", false).unwrap(), template);
    let narrow = gen_linker_script(&resolve("riscv64", true).unwrap(), template);
    assert_eq!(wide, narrow);
    assert_eq!(wide, b"OUTPUT_ARCH(riscv)".to_vec());
}

#[test]
fn x86_64_script_holds_the_platform_descriptor() {
    let script = gen_linker_script(&resolve("x86_64", false).unwrap(), b"OUTPUT_ARCH(%ARCH%)");
    assert!(holds(&script, b"i386:x86-64"));
    assert!(!holds(&script, b"x86_64"));
    assert!(!holds(&script, b"%ARCH%"));
}

#[test]
fn template_without_placeholder_is_unchanged() {
    let params = resolve("x86_64", false).unwrap();
    for template in [&b""[..], b"ENTRY(_start)", b"%ARCH", b"ARCH%", b"%arch%", b"% ARCH %", b"%"] {
        assert_eq!(gen_linker_script(&params, template), template.to_vec());
    }
}

#[test]
fn placeholders_are_found_from_the_left_without_overlap() {
    let params = resolve("riscv64", false).unwrap();
    assert_eq!(gen_linker_script(&params, b"%ARCH%ARCH%"), b"riscvARCH%".to_vec());
    assert_eq!(gen_linker_script(&params, b"%%ARCH%%"), b"%riscv%".to_vec());
    assert_eq!(gen_linker_script(&params, b"%ARCH%%ARCH%"), b"riscvriscv".to_vec());
    assert_eq!(gen_linker_script(&params, b"%ARC%ARCH%"), b"%ARCriscv".to_vec());
}

#[test]
fn script_agrees_with_text_replacement() {
    let templates = [
        "",
        "OUTPUT_ARCH(%ARCH%)",
        "%ARCH%",
        "%ARCH%%ARCH%%ARC",
        "a%ARCH%b%ARCH%c",
        "/* caf\u{e9} %ARCH% \u{4e2d}\u{6587} */",
        "%%%ARCH%%%",
    ];
    for name in ["aarch64", "riscv64", "x86_64"] {
        let params = resolve(name, false).unwrap();
        for template in templates {
            let expected = template.replace("%ARCH%", output_format(params.cpu_family));
            assert_eq!(gen_linker_script(&params, template.as_bytes()), expected.into_bytes());
        }
    }
}

#[test]
fn replace_in_general() {
    assert_eq!(replace(b"abcabc", b"bc", b"X"), b"aXaX".to_vec());
    assert_eq!(replace(b"aaaa", b"aa", b"b"), b"bb".to_vec());
    assert_eq!(replace(b"aaa", b"aa", b"b"), b"ba".to_vec());
    assert_eq!(replace(b"abc", b"abc", b""), b"".to_vec());
    assert_eq!(replace(b"abc", b"abcd", b"X"), b"abc".to_vec());
    assert_eq!(replace(b"abc", b"c", b"cc"), b"abcc".to_vec());
    assert_eq!(replace(b"", b"a", b"b"), b"".to_vec());
}

#[test]
fn replace_with_an_empty_token_changes_nothing() {
    assert_eq!(replace(b"abc", b"", b"X"), b"abc".to_vec());
    assert_eq!(replace(b"", b"", b"X"), b"".to_vec());
}
