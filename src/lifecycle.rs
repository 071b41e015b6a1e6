use vstd::prelude::*;
use crate::error::SuivmError;
use crate::store::{is_hidden_name, is_store_name, is_store_name_spec, staging_name_spec};
use crate::text::{contains_text, names_view, same_text};

verus! {

/// How an artifact is acquired.
#[derive(Debug, Clone, Copy, PartialEq, Eq, Structural)]
pub enum Mode {
    /// Download the published release archive.
    Download,
    /// Build from the upstream source.
    Compile,
}

/// How a version is acquired: compiled when compilation is forced, when the
/// platform has no published binaries, or when the version is no release.
pub open spec fn mode_spec(
    version: Seq<char>,
    releases: Seq<Seq<char>>,
    platform_supported: bool,
    force_compile: bool,
) -> Mode {
    if !force_compile && platform_supported && releases.contains(version) {
        Mode::Download
    } else {
        Mode::Compile
    }
}

/// How `version` is acquired, given the published releases, whether binaries
/// are published for this platform, and whether compilation is forced.
pub fn choose_mode(
    version: &String,
    releases: &Vec<String>,
    platform_supported: bool,
    force_compile: bool,
) -> (r: Mode)
    ensures
        r == mode_spec(version@, names_view(releases@), platform_supported, force_compile),
{
    if !force_compile && platform_supported && contains_text(releases, version) {
        Mode::Download
    } else {
        Mode::Compile
    }
}

/// One step that the program performs on the store.
#[derive(Debug, Clone, PartialEq, Eq)]
pub enum Action {
    /// Acquire the artifact of the version under its hidden staging name.
    Stage { version: String, mode: Mode },
    /// Rename the staged artifact of the version to the version's name.
    Promote { version: String },
    /// Record the version as the current one.
    WriteCurrent { version: String },
    /// Remove the artifact of the version.
    RemoveArtifact { version: String },
}

/// A step on the store, over the characters of its version.
pub enum ActionModel {
    Stage(Seq<char>, Mode),
    Promote(Seq<char>),
    WriteCurrent(Seq<char>),
    RemoveArtifact(Seq<char>),
}

/// The model of an action.
pub open spec fn action_view(a: Action) -> ActionModel {
    match a {
        Action::Stage { version, mode } => ActionModel::Stage(version@, mode),
        Action::Promote { version } => ActionModel::Promote(version@),
        Action::WriteCurrent { version } => ActionModel::WriteCurrent(version@),
        Action::RemoveArtifact { version } => ActionModel::RemoveArtifact(version@),
    }
}

/// The models of a list of actions.
pub open spec fn actions_view(actions: Seq<Action>) -> Seq<ActionModel> {
    actions.map_values(|a: Action| action_view(a))
}

/// The store as the actions see it: the names in its bin directory and the
/// current version.
pub struct StoreModel {
    pub files: Set<Seq<char>>,
    pub current: Option<Seq<char>>,
}

/// The installed versions of a store: the names in its bin directory that
/// are not hidden.
pub open spec fn listed(s: StoreModel) -> Set<Seq<char>> {
    s.files.filter(|n: Seq<char>| !is_hidden_name(n))
}

/// The store after one action.
pub open spec fn apply(s: StoreModel, a: ActionModel) -> StoreModel {
    match a {
        ActionModel::Stage(v, _) => StoreModel {
            files: s.files.insert(staging_name_spec(v)),
            current: s.current,
        },
        ActionModel::Promote(v) => StoreModel {
            files: s.files.remove(staging_name_spec(v)).insert(v),
            current: s.current,
        },
        ActionModel::WriteCurrent(v) => StoreModel { files: s.files, current: Some(v) },
        ActionModel::RemoveArtifact(v) => StoreModel {
            files: s.files.remove(v),
            current: s.current,
        },
    }
}

/// The store after a list of actions, performed in order.
pub open spec fn run(s: StoreModel, actions: Seq<ActionModel>) -> StoreModel
    decreases actions.len(),
{
    if actions.len() == 0 {
        s
    } else {
        apply(run(s, actions.drop_last()), actions.last())
    }
}

/// The actions of `install`: refused (`None`) when the version cannot name an
/// installed version; none when the version is installed and compilation is
/// not forced; else acquire the artifact under its staging name, then move it
/// into place.
pub open spec fn install_plan(
    version: Seq<char>,
    installed: bool,
    force_compile: bool,
    mode: Mode,
) -> Option<Seq<ActionModel>> {
    if !is_store_name_spec(version) {
        None
    } else if installed && !force_compile {
        Some(Seq::empty())
    } else {
        Some(seq![ActionModel::Stage(version, mode), ActionModel::Promote(version)])
    }
}

/// The actions of `use`: refused (`None`) when the version cannot name an
/// installed version; else install the version when it is not installed, then
/// record it as current.
pub open spec fn use_plan(version: Seq<char>, installed: bool, mode: Mode) -> Option<
    Seq<ActionModel>,
> {
    match install_plan(version, installed, false, mode) {
        Some(p) => Some(p.push(ActionModel::WriteCurrent(version))),
        None => None,
    }
}

/// The actions of a plan that was not refused.
pub open spec fn plan_view(r: Result<Vec<Action>, SuivmError>) -> Option<Seq<ActionModel>> {
    match r {
        Ok(v) => Some(actions_view(v@)),
        Err(_) => None,
    }
}

/// The actions that install `version` into a store whose installed versions
/// are `installed`. A version that cannot name an installed version is an
/// `InvalidVersionName` error.
pub fn install_version(
    version: &String,
    installed: &Vec<String>,
    releases: &Vec<String>,
    platform_supported: bool,
    force_compile: bool,
) -> (r: Result<Vec<Action>, SuivmError>)
    ensures
        plan_view(r) == install_plan(
            version@,
            names_view(installed@).contains(version@),
            force_compile,
            mode_spec(version@, names_view(releases@), platform_supported, force_compile),
        ),
        !is_store_name_spec(version@) ==> r == Err::<Vec<Action>, SuivmError>(
            SuivmError::InvalidVersionName(*version),
        ),
{
    if !is_store_name(version.as_str()) {
        return Err(SuivmError::InvalidVersionName(version.clone()));
    }
    let mut r: Vec<Action> = Vec::new();
    if contains_text(installed, version) && !force_compile {
        assert(actions_view(r@) =~= Seq::<ActionModel>::empty());
        return Ok(r);
    }
    let mode = choose_mode(version, releases, platform_supported, force_compile);
    r.push(Action::Stage { version: version.clone(), mode });
    r.push(Action::Promote { version: version.clone() });
    assert(actions_view(r@) =~= seq![ActionModel::Stage(version@, mode), ActionModel::Promote(version@)]);
    Ok(r)
}

/// The actions that make `version` the current version of a store whose
/// installed versions are `installed`, installing it first when it is missing.
/// A version that cannot name an installed version is an `InvalidVersionName`
/// error.
pub fn use_version(
    version: &String,
    installed: &Vec<String>,
    releases: &Vec<String>,
    platform_supported: bool,
    force_compile: bool,
) -> (r: Result<Vec<Action>, SuivmError>)
    ensures
        plan_view(r) == use_plan(
            version@,
            names_view(installed@).contains(version@),
            mode_spec(version@, names_view(releases@), platform_supported, force_compile),
        ),
        !is_store_name_spec(version@) ==> r == Err::<Vec<Action>, SuivmError>(
            SuivmError::InvalidVersionName(*version),
        ),
{
    if !is_store_name(version.as_str()) {
        return Err(SuivmError::InvalidVersionName(version.clone()));
    }
    let mut r: Vec<Action> = Vec::new();
    let ghost mode = mode_spec(version@, names_view(releases@), platform_supported, force_compile);
    if !contains_text(installed, version) {
        let m = choose_mode(version, releases, platform_supported, force_compile);
        r.push(Action::Stage { version: version.clone(), mode: m });
        r.push(Action::Promote { version: version.clone() });
    }
    r.push(Action::WriteCurrent { version: version.clone() });
    assert(Some(actions_view(r@)) =~= use_plan(
        version@,
        names_view(installed@).contains(version@),
        mode,
    ));
    Ok(r)
}

/// The actions of `uninstall`: refused when the version is current, none when
/// it is not installed, else the removal of its artifact.
pub open spec fn uninstall_plan(
    version: Seq<char>,
    installed: bool,
    current: Option<Seq<char>>,
) -> Option<Seq<ActionModel>> {
    if current == Some(version) {
        None
    } else if installed {
        Some(seq![ActionModel::RemoveArtifact(version)])
    } else {
        Some(Seq::empty())
    }
}

/// The current version as characters.
pub open spec fn current_view(current: Option<String>) -> Option<Seq<char>> {
    match current {
        Some(c) => Some(c@),
        None => None,
    }
}

/// The actions that remove `version` from a store whose installed versions are
/// `installed` and whose current version is `current`. The current version is
/// never removed: that is an `ActiveVersion` error, and nothing is done.
pub fn uninstall_version(
    version: &String,
    installed: &Vec<String>,
    current: &Option<String>,
) -> (r: Result<Vec<Action>, SuivmError>)
    ensures
        current_view(*current) == Some(version@) ==> r == Err::<Vec<Action>, SuivmError>(
            SuivmError::ActiveVersion(*version),
        ),
        current_view(*current) != Some(version@) ==> r is Ok && Some(actions_view(r->Ok_0@))
            == uninstall_plan(
            version@,
            names_view(installed@).contains(version@),
            current_view(*current),
        ),
{
    let is_current = match current {
        Some(c) => same_text(c.as_str(), version.as_str()),
        None => false,
    };
    if is_current {
        return Err(SuivmError::ActiveVersion(version.clone()));
    }
    let mut r: Vec<Action> = Vec::new();
    if contains_text(installed, version) {
        r.push(Action::RemoveArtifact { version: version.clone() });
        assert(actions_view(r@) =~= seq![ActionModel::RemoveArtifact(version@)]);
    } else {
        assert(actions_view(r@) =~= Seq::<ActionModel>::empty());
    }
    Ok(r)
}

/// The outcome of a build: success, or `ToolchainFailure` with the build's
/// exit code when it exited unsuccessfully.
pub fn toolchain_outcome(success: bool, code: Option<i32>) -> (r: Result<(), SuivmError>)
    ensures
        success ==> r is Ok,
        !success ==> r == Err::<(), SuivmError>(SuivmError::ToolchainFailure(code)),
{
    if success {
        Ok(())
    } else {
        Err(SuivmError::ToolchainFailure(code))
    }
}

/// The version whose binary the shim runs: the current version, which must be
/// installed. No current version is `NotInstalled`; a current version with no
/// artifact is `CorruptedInstallation`.
pub fn shim_version(current: Option<String>, installed: &Vec<String>) -> (r: Result<
    String,
    SuivmError,
>)
    ensures
        current is None ==> r == Err::<String, SuivmError>(SuivmError::NotInstalled),
        current is Some && names_view(installed@).contains(current->0@) ==> r == Ok::<
            String,
            SuivmError,
        >(current->0),
        current is Some && !names_view(installed@).contains(current->0@) ==> r == Err::<
            String,
            SuivmError,
        >(SuivmError::CorruptedInstallation(current->0)),
{
    match current {
        None => Err(SuivmError::NotInstalled),
        Some(v) => {
            if contains_text(installed, &v) {
                Ok(v)
            } else {
                Err(SuivmError::CorruptedInstallation(v))
            }
        },
    }
}

/// Whether the current version of a store, if any, is installed.
pub open spec fn consistent(s: StoreModel) -> bool {
    s.current is Some ==> listed(s).contains(s.current->0)
}

proof fn lemma_hidden_not_listed(files: Set<Seq<char>>, n: Seq<char>)
    requires
        is_hidden_name(n),
    ensures
        files.insert(n).filter(|m: Seq<char>| !is_hidden_name(m)) == files.filter(
            |m: Seq<char>| !is_hidden_name(m),
        ),
        files.remove(n).filter(|m: Seq<char>| !is_hidden_name(m)) == files.filter(
            |m: Seq<char>| !is_hidden_name(m),
        ),
{
    assert(files.insert(n).filter(|m: Seq<char>| !is_hidden_name(m)) =~= files.filter(
        |m: Seq<char>| !is_hidden_name(m),
    ));
    assert(files.remove(n).filter(|m: Seq<char>| !is_hidden_name(m)) =~= files.filter(
        |m: Seq<char>| !is_hidden_name(m),
    ));
}

/// Whether a store that names `version` as current also has it installed.
pub open spec fn points_to_installed(s: StoreModel, version: Seq<char>) -> bool {
    s.current == Some(version) ==> listed(s).contains(version)
}

/// After the actions of a `use` that was not refused, the version is
/// installed and current. The pointer is written only after the artifact is
/// in place: every state that the actions pass through, a crash included,
/// that names the version as current also has it installed, unless the store
/// already named it without having it. Likewise a store whose current
/// version is installed keeps that property in every such state.
pub proof fn law_use_installs_then_points(s: StoreModel, version: Seq<char>, mode: Mode)
    requires
        use_plan(version, listed(s).contains(version), mode) is Some,
    ensures
        ({
            let plan = use_plan(version, listed(s).contains(version), mode)->0;
            &&& listed(run(s, plan)).contains(version)
            &&& run(s, plan).current == Some(version)
            &&& points_to_installed(s, version) ==> forall|k: int|
                0 <= k <= plan.len() ==> points_to_installed(
                    #[trigger] run(s, plan.take(k)),
                    version,
                )
            &&& consistent(s) ==> forall|k: int|
                0 <= k <= plan.len() ==> consistent(#[trigger] run(s, plan.take(k)))
        }),
{
    let plan = use_plan(version, listed(s).contains(version), mode)->0;
    let st = staging_name_spec(version);
    assert(is_hidden_name(st));
    assert(!is_hidden_name(version));
    assert(st != version);
    assert(plan.take(plan.len() as int) == plan);
    if listed(s).contains(version) {
        assert(plan =~= seq![ActionModel::WriteCurrent(version)]);
        assert(plan.take(0).len() == 0);
        assert(plan.take(1).drop_last() =~= plan.take(0));
        assert(run(s, plan.take(0)) == s);
        assert(run(s, plan.take(1)) == apply(s, ActionModel::WriteCurrent(version)));
        assert forall|k: int| 0 <= k <= plan.len() implies points_to_installed(
            #[trigger] run(s, plan.take(k)),
            version,
        ) || !points_to_installed(s, version) by {}
        assert forall|k: int| 0 <= k <= plan.len() implies consistent(
            #[trigger] run(s, plan.take(k)),
        ) || !consistent(s) by {}
    } else {
        let s1 = apply(s, ActionModel::Stage(version, mode));
        let s2 = apply(s1, ActionModel::Promote(version));
        let s3 = apply(s2, ActionModel::WriteCurrent(version));
        lemma_hidden_not_listed(s.files, st);
        lemma_hidden_not_listed(s1.files, st);
        assert(s1.files.remove(st) =~= s.files.remove(st));
        assert(listed(s1) == listed(s));
        assert(listed(s2).contains(version));
        assert forall|n: Seq<char>| listed(s).contains(n) implies listed(s2).contains(n) by {
            assert(s.files.contains(n) && !is_hidden_name(n));
            assert(n != st);
        }
        assert(plan =~= seq![
            ActionModel::Stage(version, mode),
            ActionModel::Promote(version),
            ActionModel::WriteCurrent(version),
        ]);
        assert(plan.take(0).len() == 0);
        assert(plan.take(1).drop_last() =~= plan.take(0));
        assert(plan.take(2).drop_last() =~= plan.take(1));
        assert(plan.take(3).drop_last() =~= plan.take(2));
        assert(run(s, plan.take(0)) == s);
        assert(run(s, plan.take(1)) == s1);
        assert(run(s, plan.take(2)) == s2);
        assert(run(s, plan.take(3)) == s3);
        assert forall|k: int| 0 <= k <= plan.len() implies points_to_installed(
            #[trigger] run(s, plan.take(k)),
            version,
        ) || !points_to_installed(s, version) by {}
        assert forall|k: int| 0 <= k <= plan.len() implies consistent(
            #[trigger] run(s, plan.take(k)),
        ) || !consistent(s) by {}
    }
}

/// `uninstall` of the current version is refused: it has no actions, so the
/// store is left as it was.
pub proof fn law_uninstall_current_is_refused(s: StoreModel, version: Seq<char>)
    requires
        s.current == Some(version),
    ensures
        uninstall_plan(version, listed(s).contains(version), s.current) is None,
{
}

/// `uninstall` of a version that is neither installed nor current does nothing:
/// the store after its actions is the store before.
pub proof fn law_uninstall_absent_is_noop(s: StoreModel, version: Seq<char>)
    requires
        !listed(s).contains(version),
        s.current != Some(version),
    ensures
        uninstall_plan(version, listed(s).contains(version), s.current) == Some(
            Seq::<ActionModel>::empty(),
        ),
        run(s, Seq::<ActionModel>::empty()) == s,
{
}

/// After the actions of `uninstall` on a version that is not current, the
/// version is no longer installed and the current version is unchanged.
pub proof fn law_uninstall_removes(s: StoreModel, version: Seq<char>)
    requires
        s.current != Some(version),
    ensures
        ({
            let plan = uninstall_plan(version, listed(s).contains(version), s.current)->0;
            &&& !listed(run(s, plan)).contains(version)
            &&& run(s, plan).current == s.current
        }),
{
    let plan = uninstall_plan(version, listed(s).contains(version), s.current)->0;
    if listed(s).contains(version) {
        assert(plan.drop_last() =~= Seq::<ActionModel>::empty());
        assert(run(s, plan.drop_last()) == s);
        assert(plan.last() == ActionModel::RemoveArtifact(version));
        assert(run(s, plan) == apply(s, ActionModel::RemoveArtifact(version)));
        assert(!run(s, plan).files.contains(version));
    } else {
        assert(run(s, plan) == s);
    }
}

/// Once an `install` that was not refused has run, the version is installed,
/// and a second `install` of it, not forced to compile, has nothing to do.
pub proof fn law_install_twice_is_noop(
    s: StoreModel,
    version: Seq<char>,
    force_compile: bool,
    mode: Mode,
    second_mode: Mode,
)
    requires
        install_plan(version, listed(s).contains(version), force_compile, mode) is Some,
    ensures
        ({
            let s1 = run(
                s,
                install_plan(version, listed(s).contains(version), force_compile, mode)->0,
            );
            &&& listed(s1).contains(version)
            &&& install_plan(version, listed(s1).contains(version), false, second_mode) == Some(
                Seq::<ActionModel>::empty(),
            )
        }),
{
    let plan = install_plan(version, listed(s).contains(version), force_compile, mode)->0;
    assert(!is_hidden_name(version));
    if !(listed(s).contains(version) && !force_compile) {
        assert(plan.drop_last().drop_last() =~= Seq::<ActionModel>::empty());
        assert(plan.drop_last() =~= seq![ActionModel::Stage(version, mode)]);
        let s1 = run(s, plan);
        assert(s1.files.contains(version));
    } else {
        assert(run(s, plan) == s);
    }
}

} // verus!
