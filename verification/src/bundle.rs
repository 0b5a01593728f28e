//! Application-bundle placement: the checks and command strings behind
//! installing the application into `/Applications`.
//!
//! The application can offer to move its own bundle into `/Applications`
//! when started from elsewhere. The decision whether it already runs from
//! there, and the AppleScript command that performs the move with
//! administrator privileges, are pure string work and live here; reading
//! the running executable's path and spawning `osascript` stay with the
//! caller.

use vstd::prelude::*;

verus! {

/// Whether a bundle path lies under the system-wide applications
/// directory.
pub open spec fn installed_spec(p: Seq<char>) -> bool {
    p.len() >= 14 && p.subrange(0, 14) == "/Applications/"@
}

/// Checks whether the bundle path starts with `/Applications/`, that is,
/// whether the application is already installed system-wide.
pub fn installed_in_applications(bundle: &str) -> (r: bool)
    ensures
        r == installed_spec(bundle@),
{
    let pref = "/Applications/";
    proof {
        reveal_strlit("/Applications/");
        assert(pref@.len() == 14);
    }
    let n = bundle.unicode_len();
    if n < 14 {
        return false;
    }
    let mut i: usize = 0;
    while i < 14
        invariant
            i <= 14,
            n == bundle@.len(),
            n >= 14,
            pref@ == "/Applications/"@,
            pref@.len() == 14,
            forall|j: int| 0 <= j < i ==> bundle@[j] == pref@[j],
        decreases 14 - i,
    {
        if bundle.get_char(i) != pref.get_char(i) {
            proof {
                assert(bundle@.subrange(0, 14)[i as int] == bundle@[i as int]);
                assert(bundle@.subrange(0, 14) != pref@);
            }
            return false;
        }
        i = i + 1;
    }
    proof {
        assert(bundle@.subrange(0, 14) =~= pref@);
    }
    true
}

/// The target path of the installed bundle: the applications directory
/// joined with the bundle's own name.
pub open spec fn applications_target_spec(app_name: Seq<char>) -> Seq<char> {
    "/Applications/"@ + app_name
}

/// Builds the path the bundle would occupy under `/Applications`.
pub fn applications_target(app_name: &str) -> (r: String)
    ensures
        r@ == applications_target_spec(app_name@),
{
    let mut s = String::from_str("/Applications/");
    s.append(app_name);
    s
}

/// The AppleScript statement that copies the bundle to its target with
/// administrator privileges, first removing any bundle already standing
/// there. `bundle` is expected quote-escaped (see
/// `escape::escape_for_apple_script`); the single quotes around each
/// interpolation guard the remaining shell metacharacters.
pub open spec fn move_bundle_command_spec(
    bundle: Seq<char>,
    target: Seq<char>,
    target_exists: bool,
) -> Seq<char> {
    if target_exists {
        "do shell script \"rm -R '"@ + target + "' && cp -R '"@ + bundle + "' '"@ + target
            + "' && rm -R '"@ + bundle + "'\" with administrator privileges"@
    } else {
        "do shell script \"cp -R '"@ + bundle + "' '"@ + target + "' && rm -R '"@ + bundle
            + "'\" with administrator privileges"@
    }
}

/// Builds the bundle-move command for the given escaped bundle path and
/// target path; `target_exists` reports whether a bundle already stands at
/// the target.
pub fn move_bundle_command(bundle: &str, target: &str, target_exists: bool) -> (r: String)
    ensures
        r@ == move_bundle_command_spec(bundle@, target@, target_exists),
{
    if target_exists {
        let mut s = String::from_str("do shell script \"rm -R '");
        s.append(target);
        s.append("' && cp -R '");
        s.append(bundle);
        s.append("' '");
        s.append(target);
        s.append("' && rm -R '");
        s.append(bundle);
        s.append("'\" with administrator privileges");
        s
    } else {
        let mut s = String::from_str("do shell script \"cp -R '");
        s.append(bundle);
        s.append("' '");
        s.append(target);
        s.append("' && rm -R '");
        s.append(bundle);
        s.append("'\" with administrator privileges");
        s
    }
}

} // verus!
