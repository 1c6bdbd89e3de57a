//! The linker script: a template in which every placeholder gives way to
//! the output format of the target.

use crate::arch::{Arch, ArchitectureParameters};
use vstd::prelude::*;
use vstd::string::{is_ascii_spec_bytes, StringSliceAdditionalSpecFns};
use vstd::utf8::encode_utf8;

verus! {

/// The output format that the linker knows each family by.
pub open spec fn format_of(family: Arch) -> Seq<char> {
    match family {
        Arch::X86_64 => "i386:x86-64"@,
        Arch::Riscv64 => "riscv"@,
        Arch::Aarch64 => "Aarch64"@,
    }
}

/// The placeholder of a template, as bytes.
pub open spec fn placeholder() -> Seq<u8> {
    encode_utf8("%ARCH%"@)
}

/// `text` with every occurrence of `token` replaced by `with`, found from
/// left to right and never overlapping. An empty token occurs nowhere.
pub open spec fn replace_all(text: Seq<u8>, token: Seq<u8>, with: Seq<u8>) -> Seq<u8>
    decreases text.len(),
{
    if text.len() == 0 {
        text
    } else if token.len() > 0 && token.is_prefix_of(text) {
        with + replace_all(text.skip(token.len() as int), token, with)
    } else {
        seq![text[0]] + replace_all(text.skip(1), token, with)
    }
}

/// The linker script made from `template` for `family`.
pub open spec fn script_of(family: Arch, template: Seq<u8>) -> Seq<u8> {
    replace_all(template, placeholder(), encode_utf8(format_of(family)))
}

/// Whether `needle` stands somewhere in `hay`.
pub open spec fn occurs_in(needle: Seq<u8>, hay: Seq<u8>) -> bool {
    exists|k: int|
        0 <= k <= hay.len() - needle.len() && #[trigger] hay.subrange(k, k + needle.len())
            == needle
}

/// The output format that the linker knows `family` by.
pub fn output_format(family: Arch) -> (format: &'static str)
    ensures
        format@ == format_of(family),
{
    match family {
        Arch::X86_64 => "i386:x86-64",
        Arch::Riscv64 => "riscv",
        Arch::Aarch64 => "Aarch64",
    }
}

/// Whether `token` stands in `text` at offset `at`.
fn stands_at(text: &[u8], at: usize, token: &[u8]) -> (found: bool)
    requires
        at <= text@.len(),
    ensures
        found == token@.is_prefix_of(text@.skip(at as int)),
{
    if token.len() > text.len() - at {
        return false;
    }
    let mut j: usize = 0;
    while j < token.len()
        invariant
            at + token@.len() <= text@.len() <= usize::MAX,
            j <= token@.len(),
            forall|k: int| 0 <= k < j ==> token@[k] == text@[at + k],
        decreases token@.len() - j,
    {
        if token[j] != text[at + j] {
            assert(text@.skip(at as int).subrange(0, token@.len() as int)[j as int] != token@[j as int]);
            return false;
        }
        j += 1;
    }
    assert(token@ =~= text@.skip(at as int).subrange(0, token@.len() as int));
    true
}

/// Replaces every occurrence of `token` in `text` by `with`.
pub fn replace(text: &[u8], token: &[u8], with: &[u8]) -> (out: Vec<u8>)
    ensures
        out@ == replace_all(text@, token@, with@),
{
    let mut out: Vec<u8> = Vec::new();
    let mut i: usize = 0;
    assert(out@ + replace_all(text@.skip(0), token@, with@) =~= replace_all(
        text@,
        token@,
        with@,
    )) by {
        assert(text@.skip(0) =~= text@);
    }
    while i < text.len()
        invariant
            i <= text@.len(),
            out@ + replace_all(text@.skip(i as int), token@, with@) == replace_all(
                text@,
                token@,
                with@,
            ),
        decreases text@.len() - i,
    {
        let ghost before = out@;
        let ghost rest = text@.skip(i as int);
        if token.len() > 0 && stands_at(text, i, token) {
            out.extend_from_slice(with);
            assert(out@ =~= before + with@);
            assert(rest.skip(token@.len() as int) =~= text@.skip(i + token@.len()));
            assert(out@ + replace_all(rest.skip(token@.len() as int), token@, with@) =~= before
                + replace_all(rest, token@, with@));
            i += token.len();
        } else {
            out.push(text[i]);
            assert(rest.skip(1) =~= text@.skip(i + 1));
            assert(out@ + replace_all(rest.skip(1), token@, with@) =~= before + replace_all(
                rest,
                token@,
                with@,
            ));
            i += 1;
        }
    }
    assert(out@ + replace_all(text@.skip(i as int), token@, with@) =~= out@);
    out
}

/// The linker script for a build: `template` with every placeholder
/// replaced by the output format of the build's family. Of the parameters
/// only the family counts.
pub fn gen_linker_script(params: &ArchitectureParameters, template: &[u8]) -> (script: Vec<u8>)
    ensures
        script@ == script_of(params.cpu_family, template@),
{
    let format = output_format(params.cpu_family);
    replace(template, "%ARCH%".as_bytes(), format.as_bytes())
}

/// Where the token stands in a text, the replacement stands in the result.
pub proof fn lemma_replacement_occurs(text: Seq<u8>, token: Seq<u8>, with: Seq<u8>)
    requires
        token.len() > 0,
        occurs_in(token, text),
    ensures
        occurs_in(with, replace_all(text, token, with)),
    decreases text.len(),
{
    let out = replace_all(text, token, with);
    let k = choose|k: int|
        0 <= k <= text.len() - token.len() && #[trigger] text.subrange(k, k + token.len())
            == token;
    if token.is_prefix_of(text) {
        assert(out.subrange(0int, 0int + with.len()) =~= with);
    } else {
        assert(k != 0);
        let tail = text.skip(1);
        assert(tail.subrange(k - 1, k - 1 + token.len()) =~= text.subrange(k, k + token.len()));
        lemma_replacement_occurs(tail, token, with);
        let inner = replace_all(tail, token, with);
        let j = choose|j: int|
            0 <= j <= inner.len() - with.len() && #[trigger] inner.subrange(j, j + with.len())
                == with;
        assert(out.subrange(j + 1, j + 1 + with.len()) =~= inner.subrange(j, j + with.len()));
    }
}

/// A text in which the token stands nowhere is left as it is.
pub proof fn lemma_replace_without_token(text: Seq<u8>, token: Seq<u8>, with: Seq<u8>)
    requires
        !occurs_in(token, text),
    ensures
        replace_all(text, token, with) == text,
    decreases text.len(),
{
    if text.len() > 0 {
        if token.len() > 0 && token.is_prefix_of(text) {
            assert(text.subrange(0int, 0int + token.len()) =~= token);
        }
        let tail = text.skip(1);
        assert forall|k: int| 0 <= k <= tail.len() - token.len() implies #[trigger] tail.subrange(
            k,
            k + token.len(),
        ) != token by {
            assert(tail.subrange(k, k + token.len()) =~= text.subrange(k + 1, k + 1 + token.len()));
        }
        lemma_replace_without_token(tail, token, with);
        assert(seq![text[0]] + tail =~= text);
    }
}

/// Generating a script is a function of the template and the family: two
/// scripts made from the same template for the same family are the same,
/// byte for byte.
pub proof fn lemma_script_is_reproducible(
    first: ArchitectureParameters,
    second: ArchitectureParameters,
    template: Seq<u8>,
    script: Seq<u8>,
    again: Seq<u8>,
)
    requires
        first.cpu_family == second.cpu_family,
        script == script_of(first.cpu_family, template),
        again == script_of(second.cpu_family, template),
    ensures
        script == again,
{
}

/// The output format of X86_64 is not the family's target name, and that of
/// Riscv64 is the one that its 32-bit and 64-bit variants share, whichever
/// address width was resolved. A template that holds the placeholder gives a
/// script that holds the format.
pub proof fn lemma_output_format(params: ArchitectureParameters, template: Seq<u8>)
    ensures
        format_of(Arch::X86_64) == "i386:x86-64"@,
        format_of(Arch::X86_64) != "x86_64"@,
        params.cpu_family == Arch::Riscv64 ==> format_of(params.cpu_family) == "riscv"@,
        script_of(params.cpu_family, placeholder()) == encode_utf8(format_of(params.cpu_family)),
        occurs_in(placeholder(), template) ==> occurs_in(
            encode_utf8(format_of(params.cpu_family)),
            script_of(params.cpu_family, template),
        ),
{
    reveal_strlit("i386:x86-64");
    reveal_strlit("x86_64");
    assert("i386:x86-64"@.len() != "x86_64"@.len());
    lemma_placeholder_bytes();
    let with = encode_utf8(format_of(params.cpu_family));
    assert(placeholder().is_prefix_of(placeholder()));
    assert(placeholder().skip(placeholder().len() as int) =~= Seq::<u8>::empty());
    assert(replace_all(Seq::<u8>::empty(), placeholder(), with) =~= Seq::<u8>::empty());
    assert(with + Seq::<u8>::empty() =~= with);
    if occurs_in(placeholder(), template) {
        lemma_replacement_occurs(template, placeholder(), with);
    }
}

/// The placeholder is the six ASCII characters `%ARCH%`.
pub proof fn lemma_placeholder_bytes()
    ensures
        placeholder() == seq![0x25u8, 0x41u8, 0x52u8, 0x43u8, 0x48u8, 0x25u8],
{
    reveal_strlit("%ARCH%");
    is_ascii_spec_bytes("%ARCH%");
    assert("%ARCH%".spec_bytes() =~= seq![0x25u8, 0x41u8, 0x52u8, 0x43u8, 0x48u8, 0x25u8]);
}

} // verus!
