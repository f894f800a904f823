//! Small shared helpers: the host platform, installation hints for the
//! external tools, string lists, and joining a relative path onto a directory.

use vstd::prelude::*;
use crate::text::owned;

verus! {

broadcast use vstd::string::group_string_axioms;

/// The operating system the program was built for, as far as the hints and
/// file names of this crate depend on it.
#[derive(Debug, Clone, Copy, PartialEq, Eq, Structural)]
pub enum Platform {
    Macos,
    Windows,
    Other,
}

/// How to install `uv` on `platform`.
pub open spec fn uv_hint(platform: Platform) -> Seq<char> {
    match platform {
        Platform::Macos => "Install uv with Homebrew: brew install uv"@,
        Platform::Windows => "Install uv with WinGet: winget install --id astral-sh.uv -e"@,
        Platform::Other => "Install uv: curl -LsSf https://astral.sh/uv/install.sh | sh"@,
    }
}

/// How to install `vp` (Vite+) on `platform`.
pub open spec fn vp_hint(platform: Platform) -> Seq<char> {
    match platform {
        Platform::Windows => "Install vp in PowerShell: irm https://vite.plus/ps1 | iex"@,
        _ => "Install vp: curl -fsSL https://vite.plus | bash"@,
    }
}

/// How to install `rustup` on `platform`.
pub open spec fn rustup_hint(platform: Platform) -> Seq<char> {
    match platform {
        Platform::Macos => "Install rustup with Homebrew: brew install rustup; then add $(brew --prefix rustup)/bin to PATH"@,
        Platform::Windows => "Install rustup from https://rustup.rs and select the stable toolchain"@,
        Platform::Other => "Install rustup: curl --proto '=https' --tlsv1.2 -sSf https://sh.rustup.rs | sh"@,
    }
}

/// How to install `mise` on `platform`.
pub open spec fn mise_hint(platform: Platform) -> Seq<char> {
    match platform {
        Platform::Macos => "Install mise with Homebrew: brew install mise"@,
        Platform::Windows => "Install mise with WinGet: winget install jdx.mise"@,
        Platform::Other => "Install mise: curl https://mise.run | sh"@,
    }
}

/// The installation hint for a program that could not be found, if the
/// program is one of the tools that the backends call.
pub open spec fn install_hint(program: Seq<char>, platform: Platform) -> Option<Seq<char>> {
    if program == "uv"@ {
        Some(uv_hint(platform))
    } else if program == "vp"@ {
        Some(vp_hint(platform))
    } else if program == "rustup"@ {
        Some(rustup_hint(platform))
    } else if program == "mise"@ {
        Some(mise_hint(platform))
    } else {
        None
    }
}

/// How to install `uv` on `platform`.
pub fn uv_install_hint(platform: Platform) -> (r: String)
    ensures
        r@ == uv_hint(platform),
{
    match platform {
        Platform::Macos => owned("Install uv with Homebrew: brew install uv"),
        Platform::Windows => owned("Install uv with WinGet: winget install --id astral-sh.uv -e"),
        Platform::Other => owned("Install uv: curl -LsSf https://astral.sh/uv/install.sh | sh"),
    }
}

/// How to install `vp` (Vite+) on `platform`.
pub fn vp_install_hint(platform: Platform) -> (r: String)
    ensures
        r@ == vp_hint(platform),
{
    match platform {
        Platform::Windows => owned("Install vp in PowerShell: irm https://vite.plus/ps1 | iex"),
        _ => owned("Install vp: curl -fsSL https://vite.plus | bash"),
    }
}

/// How to install `rustup` on `platform`.
pub fn rustup_install_hint(platform: Platform) -> (r: String)
    ensures
        r@ == rustup_hint(platform),
{
    match platform {
        Platform::Macos => owned(
            "Install rustup with Homebrew: brew install rustup; then add $(brew --prefix rustup)/bin to PATH",
        ),
        Platform::Windows => owned(
            "Install rustup from https://rustup.rs and select the stable toolchain",
        ),
        Platform::Other => owned(
            "Install rustup: curl --proto '=https' --tlsv1.2 -sSf https://sh.rustup.rs | sh",
        ),
    }
}

/// How to install `mise` on `platform`.
pub fn mise_install_hint(platform: Platform) -> (r: String)
    ensures
        r@ == mise_hint(platform),
{
    match platform {
        Platform::Macos => owned("Install mise with Homebrew: brew install mise"),
        Platform::Windows => owned("Install mise with WinGet: winget install jdx.mise"),
        Platform::Other => owned("Install mise: curl https://mise.run | sh"),
    }
}

/// The installation hint for a program that could not be started.
pub fn program_install_hint(program: &str, platform: Platform) -> (r: Option<String>)
    ensures
        match r {
            Some(hint) => install_hint(program@, platform) == Some(hint@),
            None => install_hint(program@, platform) is None,
        },
{
    if crate::text::str_eq(program, "uv") {
        Some(uv_install_hint(platform))
    } else if crate::text::str_eq(program, "vp") {
        Some(vp_install_hint(platform))
    } else if crate::text::str_eq(program, "rustup") {
        Some(rustup_install_hint(platform))
    } else if crate::text::str_eq(program, "mise") {
        Some(mise_install_hint(platform))
    } else {
        None
    }
}

/// Owned copies of string slices, in order.
pub fn strings(values: &[&str]) -> (r: Vec<String>)
    ensures
        r.deep_view() == values.deep_view(),
{
    let mut r: Vec<String> = Vec::new();
    let mut i: usize = 0;
    while i < values.len()
        invariant
            i <= values@.len(),
            r.deep_view() == values.deep_view().take(i as int),
        decreases values@.len() - i,
    {
        let ghost before = r.deep_view();
        r.push(owned(values[i]));
        i = i + 1;
        assert(r.deep_view() =~= values.deep_view().take(i as int)) by {
            assert(r.deep_view() =~= before.push(values@[i - 1]@));
        }
    }
    assert(values.deep_view().take(values@.len() as int) =~= values.deep_view());
    r
}

/// `base`, then at most one path separator (`/` or `\`), then `rel`.
pub open spec fn adjoined(base: Seq<char>, rel: Seq<char>, r: Seq<char>) -> bool {
    &&& base.is_prefix_of(r)
    &&& rel.is_suffix_of(r)
    &&& base.len() + rel.len() <= r.len() <= base.len() + rel.len() + 1
    &&& r.len() == base.len() + rel.len() + 1 ==> (r[base.len() as int] == '/' || r[base.len() as int]
        == '\\')
}

/// `r` is `rel` joined onto `base`, unless `base` is a verbatim path.
pub open spec fn joined_onto(base: Seq<char>, rel: Seq<char>, r: Seq<char>) -> bool {
    !is_verbatim(base) ==> adjoined(base, rel, r)
}

/// A Windows verbatim path (`\\?\...`), whose joins are normalized.
pub open spec fn is_verbatim(p: Seq<char>) -> bool {
    p.len() >= 4 && p[0] == '\\' && p[1] == '\\' && p[2] == '?' && p[3] == '\\'
}

/// A non-empty relative path without a root or a drive on any platform.
pub open spec fn simple_relative(rel: Seq<char>) -> bool {
    &&& rel.len() > 0
    &&& rel[0] != '/'
    &&& rel[0] != '\\'
    &&& !rel.contains(':')
}

/// Joins a relative path onto `base` with std's `Path::join`. Its documentation
/// says that joining a relative path extends `base` with it, adding a
/// separator unless `base` already ends with one; what is stated is that the
/// result is `base` and `rel` with at most one separator (`/` or `\`)
/// between them. Which of the two std picks on the platform, and the
/// normalization of Windows verbatim bases, are left unsaid.
#[verifier::external_body]
pub(crate) fn join_path(base: &str, rel: &str) -> (r: String)
    requires
        simple_relative(rel@),
    ensures
        joined_onto(base@, rel@, r@),
{
    std::path::Path::new(base).join(rel).to_string_lossy().into_owned()
}

} // verus!
