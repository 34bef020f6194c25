//! The command-line helpers installed in `~/.local/bin`: `wp`, which runs
//! WP-CLI in the container of the project of the current folder, and
//! `wordpress-panel-cli`, which finds the project a path belongs to.

use vstd::prelude::*;

use crate::paths::{path_eq, same_path};
use crate::text::{chars_of, split_seq, split_vec, string_of, vv, CharClass};

verus! {

broadcast use vstd::string::group_string_axioms;

/// Where the helper scripts are shipped: `scripts/` next to the crate
/// (`{manifest_dir}/../scripts`).
pub fn scripts_dir(manifest_dir: &str) -> (r: String)
    ensures
        r@ == manifest_dir@ + "/../scripts"@,
{
    String::from_str(manifest_dir).concat("/../scripts")
}

/// Whether `bin` is one of the folders of a `PATH` value (`:`-separated,
/// compared as paths).
pub open spec fn on_path_seq(path_var: Seq<char>, bin: Seq<char>) -> bool {
    let dirs = split_seq(path_var, CharClass::Is(':'));
    exists|i: int| 0 <= i < dirs.len() && same_path(#[trigger] dirs[i], bin)
}

pub fn on_path(path_var: &str, bin: &str) -> (r: bool)
    ensures
        r == on_path_seq(path_var@, bin@),
{
    let dirs = split_vec(&chars_of(path_var), CharClass::Is(':'));
    let ghost ds = vv(dirs@);
    let mut i: usize = 0;
    while i < dirs.len()
        invariant
            i <= dirs.len(),
            ds == vv(dirs@),
            ds == split_seq(path_var@, CharClass::Is(':')),
            forall|j: int| 0 <= j < i ==> !same_path(#[trigger] ds[j], bin@),
        decreases dirs.len() - i,
    {
        let d = string_of(&dirs[i]);
        assert(ds[i as int] == dirs@[i as int]@);
        if path_eq(d.as_str(), bin) {
            return true;
        }
        i += 1;
    }
    false
}

/// The report of an installation: where `wp` and `wordpress-panel-cli` went,
/// and a warning with the line to add when `bin` is not on the `PATH`.
pub fn install_report(wp: &str, cli: &str, bin: &str, bin_on_path: bool) -> (r: String)
    ensures
        r@ == "Instalado:\n  "@ + wp@ + "\n  "@ + cli@
            + "\nUsa `wp <args>` dentro de la carpeta de un proyecto."@ + (if bin_on_path {
            Seq::<char>::empty()
        } else {
            "\n\n⚠ "@ + bin@
                + " no está en tu PATH. Añádelo a tu shell:\n  export PATH=\"$HOME/.local/bin:$PATH\""@
        }),
{
    let head = String::from_str("Instalado:\n  ").concat(wp).concat("\n  ").concat(cli).concat(
        "\nUsa `wp <args>` dentro de la carpeta de un proyecto.",
    );
    if bin_on_path {
        assert(head@ + Seq::<char>::empty() =~= head@);
        head
    } else {
        head.concat("\n\n⚠ ").concat(bin).concat(
            " no está en tu PATH. Añádelo a tu shell:\n  export PATH=\"$HOME/.local/bin:$PATH\"",
        )
    }
}

} // verus!
