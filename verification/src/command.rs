//! Construction of the privileged command strings.
//!
//! On BSD-lineage systems the grant runs `chown root:admin` and `chmod +sx`
//! on the core binary through an AppleScript administrator prompt; on other
//! Unix systems it attaches the network capabilities with `setcap` through
//! `pkexec` or `sudo`. The command is a single interpolated shell string in
//! both cases, so the path is space-escaped by the scheme the carrier
//! requires (see `escape`).

use vstd::prelude::*;
use crate::escape::escape;
use crate::escape::escape_single;
use crate::escape::escaped;
use crate::escape::lemma_escape_single_space;
use crate::escape::singly_space_escaped;

verus! {

/// The shell sequence that hands the core binary to root:admin and sets its
/// setuid and setgid bits, with the path doubly space-escaped for the
/// AppleScript carrier.
pub open spec fn macos_shell_spec(path: Seq<char>) -> Seq<char> {
    "chown root:admin "@ + escaped(path, ' ', seq!['\\', '\\']) + "\nchmod +sx "@ + escaped(
        path,
        ' ',
        seq!['\\', '\\'],
    )
}

/// The AppleScript statement that runs `shell` with administrator
/// privileges, prompting the user for credentials.
pub open spec fn osascript_command_spec(path: Seq<char>) -> Seq<char> {
    "do shell script \""@ + macos_shell_spec(path) + "\" with administrator privileges"@
}

/// The shell command that attaches the bind-service and net-admin
/// capabilities to the core binary, with the path singly space-escaped.
pub open spec fn setcap_script_spec(path: Seq<char>) -> Seq<char> {
    "setcap cap_net_bind_service,cap_net_admin=+ep "@ + escaped(path, ' ', seq!['\\'])
}

/// The privilege-escalation front end: `pkexec` where `which pkexec`
/// succeeded with nonempty output, else `sudo`.
pub open spec fn elevator_spec(pkexec_available: bool) -> Seq<char> {
    if pkexec_available {
        "pkexec"@
    } else {
        "sudo"@
    }
}

/// Builds the ownership/mode shell sequence for the given resolved path.
pub fn macos_shell(path: &str) -> (r: String)
    ensures
        r@ == macos_shell_spec(path@),
{
    let e = escape(path);
    let mut s = String::from_str("chown root:admin ");
    s.append(e.as_str());
    s.append("\nchmod +sx ");
    s.append(e.as_str());
    s
}

/// Builds the full `osascript -e` argument for the given resolved path.
pub fn osascript_command(path: &str) -> (r: String)
    ensures
        r@ == osascript_command_spec(path@),
{
    let shell = macos_shell(path);
    let mut s = String::from_str("do shell script \"");
    s.append(shell.as_str());
    s.append("\" with administrator privileges");
    s
}

/// Builds the `setcap` command for the given resolved path.
pub fn setcap_script(path: &str) -> (r: String)
    ensures
        r@ == setcap_script_spec(path@),
{
    let e = escape_single(path);
    let mut s = String::from_str("setcap cap_net_bind_service,cap_net_admin=+ep ");
    s.append(e.as_str());
    s
}

/// Law: in the `setcap` command built for a path free of backslashes,
/// every space at or past the start of the interpolated path is preceded
/// by exactly one backslash, so the escaped path survives shell
/// tokenization as a single word; the only separating spaces of the
/// command are those of its fixed prefix.
pub proof fn lemma_setcap_script_spaces(path: Seq<char>)
    requires
        forall|j: int| 0 <= j < path.len() ==> path[j] != '\\',
    ensures
        ({
            let c = setcap_script_spec(path);
            let k = ("setcap cap_net_bind_service,cap_net_admin=+ep "@).len();
            forall|i: int|
                k <= i < c.len() && #[trigger] c[i] == ' ' ==> c[i - 1] == '\\' && c[i - 2] != '\\'
        }),
{
    let p = "setcap cap_net_bind_service,cap_net_admin=+ep "@;
    let e = escaped(path, ' ', seq!['\\']);
    let c = setcap_script_spec(path);
    lemma_escape_single_space(path);
    assert(singly_space_escaped(e));
    reveal_strlit("setcap cap_net_bind_service,cap_net_admin=+ep ");
    assert(p.len() == 46);
    assert(p[45] == ' ');
    assert(c == p + e);
    assert forall|i: int| p.len() <= i < c.len() && #[trigger] c[i] == ' ' implies c[i - 1] == '\\'
        && c[i - 2] != '\\' by {
        let j = i - p.len();
        assert(c[i] == e[j]);
        assert(1 <= j && e[j - 1] == '\\' && (2 <= j ==> e[j - 2] != '\\'));
        assert(c[i - 1] == e[j - 1]);
        if 2 <= j {
            assert(c[i - 2] == e[j - 2]);
        } else {
            assert(c[i - 2] == p[45]);
        }
    }
}

/// Picks the privilege-escalation front end; `pkexec_available` reports
/// whether `which pkexec` succeeded with nonempty output.
pub fn choose_elevator(pkexec_available: bool) -> (r: String)
    ensures
        r@ == elevator_spec(pkexec_available),
{
    if pkexec_available {
        String::from_str("pkexec")
    } else {
        String::from_str("sudo")
    }
}

} // verus!
