use vstd::prelude::*;
use vstd::string::StringExecFns;
use crate::lifecycle::current_view;
use crate::text::{contains_text, names_view, same_text};

verus! {

/// The markers that follow a version in a listing: `latest` when it is the
/// newest release, `installed` when it is installed, `current` when it is the
/// current version.
pub open spec fn flags_spec(
    installed: Seq<Seq<char>>,
    latest: Option<Seq<char>>,
    current: Option<Seq<char>>,
    version: Seq<char>,
) -> Seq<Seq<char>> {
    let a = if latest == Some(version) {
        seq!["latest"@]
    } else {
        Seq::empty()
    };
    let b = if installed.contains(version) {
        a.push("installed"@)
    } else {
        a
    };
    if current == Some(version) {
        b.push("current"@)
    } else {
        b
    }
}

/// The pieces joined by `", "`.
pub open spec fn join_spec(pieces: Seq<Seq<char>>) -> Seq<char>
    decreases pieces.len(),
{
    if pieces.len() == 0 {
        Seq::empty()
    } else if pieces.len() == 1 {
        pieces[0]
    } else {
        join_spec(pieces.drop_last()) + ", "@ + pieces.last()
    }
}

/// The line that lists a version: the version alone, or followed by its
/// markers in parentheses.
pub open spec fn line_spec(version: Seq<char>, flags: Seq<Seq<char>>) -> Seq<char> {
    if flags.len() == 0 {
        version
    } else {
        version + " ("@ + join_spec(flags) + ")"@
    }
}

/// The line that lists `version`, marked as `latest`, `installed` or
/// `current` as it is the newest release, installed, or the current version.
pub fn print_version(
    installed: &Vec<String>,
    latest: &Option<String>,
    current: &Option<String>,
    version: &String,
) -> (r: String)
    ensures
        r@ == line_spec(
            version@,
            flags_spec(names_view(installed@), current_view(*latest), current_view(*current), version@),
        ),
{
    let ghost flags = flags_spec(
        names_view(installed@),
        current_view(*latest),
        current_view(*current),
        version@,
    );
    let is_latest = match latest {
        Some(l) => same_text(l.as_str(), version.as_str()),
        None => false,
    };
    let is_installed = contains_text(installed, version);
    let is_current = match current {
        Some(c) => same_text(c.as_str(), version.as_str()),
        None => false,
    };
    let mut flag_list: Vec<&str> = Vec::new();
    if is_latest {
        flag_list.push("latest");
    }
    if is_installed {
        flag_list.push("installed");
    }
    if is_current {
        flag_list.push("current");
    }
    assert(flag_list@.map_values(|f: &str| f@) =~= flags);
    let mut line = version.clone();
    if flag_list.len() > 0 {
        line.append(" (");
        let mut i: usize = 0;
        while i < flag_list.len()
            invariant
                flag_list@.len() > 0,
                i <= flag_list@.len(),
                flag_list@.map_values(|f: &str| f@) == flags,
                line@ == version@ + " ("@ + join_spec(flags.take(i as int)),
            decreases flag_list@.len() - i,
        {
            if i > 0 {
                line.append(", ");
            }
            line.append(flag_list[i]);
            proof {
                assert(flags.take(i + 1).drop_last() =~= flags.take(i as int));
                if i == 0 {
                    assert(join_spec(flags.take(0)) =~= Seq::<char>::empty());
                    assert(flags.take(1)[0] == flags[0]);
                }
            }
            i = i + 1;
        }
        assert(flags.take(flag_list@.len() as int) =~= flags);
        line.append(")");
    }
    line
}

/// The lines of the `list` command: each release, oldest first, with its
/// markers; the last release is the latest.
pub fn print_versions(
    available: &Vec<String>,
    installed: &Vec<String>,
    current: &Option<String>,
) -> (r: Vec<String>)
    ensures
        r@.len() == available@.len(),
        forall|i: int|
            0 <= i < r@.len() ==> #[trigger] r@[i]@ == line_spec(
                available@[i]@,
                flags_spec(
                    names_view(installed@),
                    Some(available@.last()@),
                    current_view(*current),
                    available@[i]@,
                ),
            ),
{
    let n = available.len();
    let latest = if n > 0 {
        Some(available[n - 1].clone())
    } else {
        None
    };
    let mut out: Vec<String> = Vec::new();
    let mut i: usize = 0;
    while i < n
        invariant
            n == available@.len(),
            i <= n,
            n > 0 ==> latest == Some(available@.last()),
            out@.len() == i,
            forall|j: int|
                0 <= j < i ==> #[trigger] out@[j]@ == line_spec(
                    available@[j]@,
                    flags_spec(
                        names_view(installed@),
                        Some(available@.last()@),
                        current_view(*current),
                        available@[j]@,
                    ),
                ),
        decreases n - i,
    {
        out.push(print_version(installed, &latest, current, &available[i]));
        i = i + 1;
    }
    out
}

/// The line of the `latest` command: the newest release with its markers.
pub fn print_latest_version(
    latest: &String,
    installed: &Vec<String>,
    current: &Option<String>,
) -> (r: String)
    ensures
        r@ == line_spec(
            latest@,
            flags_spec(names_view(installed@), None, current_view(*current), latest@),
        ),
{
    print_version(installed, &None, current, latest)
}

/// The lines of the `installed` command: each installed version, marked as
/// `latest` or `current` where it is.
pub fn print_installed(
    installed: &Vec<String>,
    latest: &Option<String>,
    current: &Option<String>,
) -> (r: Vec<String>)
    ensures
        r@.len() == installed@.len(),
        forall|i: int|
            0 <= i < r@.len() ==> #[trigger] r@[i]@ == line_spec(
                installed@[i]@,
                flags_spec(
                    Seq::empty(),
                    current_view(*latest),
                    current_view(*current),
                    installed@[i]@,
                ),
            ),
{
    let none: Vec<String> = Vec::new();
    assert(names_view(none@) =~= Seq::<Seq<char>>::empty());
    let mut out: Vec<String> = Vec::new();
    let mut i: usize = 0;
    while i < installed.len()
        invariant
            names_view(none@) == Seq::<Seq<char>>::empty(),
            i <= installed@.len(),
            out@.len() == i,
            forall|j: int|
                0 <= j < i ==> #[trigger] out@[j]@ == line_spec(
                    installed@[j]@,
                    flags_spec(
                        Seq::empty(),
                        current_view(*latest),
                        current_view(*current),
                        installed@[j]@,
                    ),
                ),
        decreases installed@.len() - i,
    {
        out.push(print_version(&none, latest, current, &installed[i]));
        i = i + 1;
    }
    out
}

/// What the `status` command says when no version is current.
pub open spec fn not_installed_message() -> Seq<char> {
    "Sui is not installed. Run `suivm use latest`"@
}

/// The line of the `status` command: the current version, marked `latest`
/// when it is the newest release, or a message naming the command that
/// installs one when no version is current.
pub fn print_current(current: &Option<String>, latest: &Option<String>) -> (r: String)
    ensures
        match current {
            Some(c) => r@ == line_spec(
                c@,
                flags_spec(Seq::empty(), current_view(*latest), None, c@),
            ),
            None => r@ == not_installed_message(),
        },
{
    match current {
        Some(c) => {
            let none: Vec<String> = Vec::new();
            assert(names_view(none@) =~= Seq::<Seq<char>>::empty());
            print_version(&none, latest, &None, c)
        },
        None => String::from_str("Sui is not installed. Run `suivm use latest`"),
    }
}

} // verus!
