use vstd::prelude::*;

use crate::cache::{cache_path, cache_path_of, ImageHandle};
use crate::command::{apply_command_from, build_apply_command};
use crate::params::{compose, AspectRatio, Category, SearchParameters, SupplierRef};
use crate::resolver::{
    best_score, resolution_ambiguous, resolution_succeeds, resolution_unknown, resolve, similarity,
    unknown_outcome, ResolutionError,
};

verus! {

/// The caller's request for one fetch, as the command line hands it over.
#[derive(Debug)]
pub struct FetchArgs {
    /// Apply the fetched image as the wallpaper through the configured
    /// external command.
    pub assign: bool,
    /// Save to this explicit path instead of the cache.
    pub output: Option<String>,
    /// Name of a predefined category to resolve.
    pub category: Option<String>,
    /// Name of the supplier to use; one is picked at random when absent.
    pub supplier: Option<String>,
    /// Ad-hoc tags, placed before any category tags.
    pub tags: Vec<String>,
    /// Allow non-sfw content.
    pub nsfw: bool,
    /// Print only the final image path.
    pub simple: bool,
}

/// The loaded configuration: the named entries that resolution works on, the
/// optional external apply-command template, and the directories that
/// relative supplier files and cached images live under.
#[derive(Debug)]
pub struct GlobalConfig {
    pub categories: Vec<Category>,
    pub suppliers: Vec<SupplierRef>,
    pub set_command: Option<String>,
    pub config_root: String,
    pub cache_root: String,
}

/// Which list of named entries an error speaks of.
#[derive(Clone, Copy, Debug, PartialEq, Eq, Structural)]
pub enum EntryKind {
    Category,
    Supplier,
}

/// The fatal failures of a run. The non-fatal apply-command failure is
/// reported through `ApplyOutcome` instead, since it does not abort the run.
#[derive(Debug)]
pub enum FetchError {
    NoCandidatesConfigured { kind: EntryKind },
    UnknownName { query: String, suggestions: Vec<String> },
    AmbiguousName { query: String, suggestion: String },
    SupplierDefinitionUnreadable,
    SupplierDefinitionMalformed,
    FetchFailed,
    PersistenceFailed,
    MissingApplyCommand,
}

/// What became of the optional external apply step.
#[derive(Clone, Copy, Debug, PartialEq, Eq, Structural)]
pub enum ApplyOutcome {
    NotRequested,
    Succeeded,
    CommandFailed,
}

/// Where the fetched image is to be persisted: at the caller's explicit path
/// (overwriting), or at its content-addressed cache path (written only when
/// absent).
#[derive(Debug)]
pub enum PersistTarget {
    Explicit { path: String },
    Cache { path: String },
}

/// The orchestrator's states. A run moves from `Start` through loading,
/// fetching, persisting and optionally applying, to `Done`; any step can
/// move to `Failed` instead.
#[derive(Debug)]
pub enum FetchState {
    Start,
    LoadingSupplier { params: SearchParameters, supplier_index: usize },
    Fetching,
    Persisting { explicit: bool },
    Applying { path: String },
    Done { path: String, apply: ApplyOutcome },
    Failed { error: FetchError },
}

/// How loading the selected supplier's definition file went.
#[derive(Clone, Copy, Debug, PartialEq, Eq, Structural)]
pub enum SupplierLoadOutcome {
    Loaded,
    Unreadable,
    Malformed,
}

/// What the surrounding runner reports back after performing an action.
#[derive(Debug)]
pub enum FetchEvent {
    Begin,
    SupplierLoaded { outcome: SupplierLoadOutcome },
    Fetched { image: Option<ImageHandle> },
    Persisted { path: Option<String> },
    Applied { success: bool },
}

/// What the surrounding runner must do next; every action but `Nothing`
/// is answered with the matching event.
#[derive(Debug)]
pub enum Action {
    Nothing,
    LoadSupplier { file_path: String },
    FetchImage { params: SearchParameters },
    Persist { target: PersistTarget, image: ImageHandle },
    RunCommand { program: String, args: Vec<String> },
}

pub open spec fn names_of_categories(cats: Seq<Category>) -> Seq<String> {
    cats.map_values(|c: Category| c.name)
}

pub open spec fn names_of_suppliers(sups: Seq<SupplierRef>) -> Seq<String> {
    sups.map_values(|s: SupplierRef| s.name)
}

/// `error` reports exactly how resolving `query` against `names` failed.
pub open spec fn name_failure(names: Seq<String>, query: String, error: FetchError) -> bool {
    match error {
        FetchError::UnknownName { query: q2, suggestions } => {
            &&& q2 == query
            &&& resolution_unknown(names, query@)
            &&& unknown_outcome(names, query@, suggestions@)
        },
        FetchError::AmbiguousName { query: q2, suggestion } => {
            &&& q2 == query
            &&& resolution_ambiguous(names, query@)
            &&& exists|b: int|
                0 <= b < names.len() && names[b]@ == suggestion@ && similarity(names[b]@, query@)
                    == best_score(names, query@)
        },
        _ => false,
    }
}

/// The state and action that a run enters once a supplier is selected: the
/// supplier's definition file is to be loaded, and the composed parameters
/// wait in the state.
pub open spec fn loading_state(
    config: GlobalConfig,
    tags: Seq<String>,
    ratios: Seq<AspectRatio>,
    si: int,
    st: FetchState,
    act: Action,
) -> bool {
    &&& st matches FetchState::LoadingSupplier { params, supplier_index } && params.tags@ == tags
        && params.aspect_ratios@ == ratios && supplier_index == si as usize
    &&& act matches Action::LoadSupplier { file_path } && file_path@ == config.config_root@ + "/"@
        + config.suppliers@[si].file@
}

/// What follows category resolution: parameters are composed from the ad-hoc
/// tags and the resolved category (if any), then a supplier is selected —
/// by name resolution when one was named, else by random pick — or the run
/// fails when no suppliers are configured.
pub open spec fn after_category(
    config: GlobalConfig,
    args: FetchArgs,
    cat: Option<int>,
    st: FetchState,
    act: Action,
) -> bool {
    let tags = match cat {
        Some(ci) => args.tags@ + config.categories@[ci].tags@,
        None => args.tags@,
    };
    let ratios = match cat {
        Some(ci) => match config.categories@[ci].aspect_ratios {
            Some(r) => r@,
            None => Seq::<AspectRatio>::empty(),
        },
        None => Seq::<AspectRatio>::empty(),
    };
    let snames = names_of_suppliers(config.suppliers@);
    if config.suppliers@.len() == 0 {
        &&& st matches FetchState::Failed {
            error: FetchError::NoCandidatesConfigured { kind: EntryKind::Supplier },
        }
        &&& act is Nothing
    } else {
        match args.supplier {
            Some(q) => {
                if resolution_succeeds(snames, q@) {
                    exists|si: int|
                        #![trigger config.suppliers@[si]]
                        0 <= si < config.suppliers@.len() && similarity(snames[si]@, q@) == q@.len()
                            && loading_state(config, tags, ratios, si, st, act)
                } else {
                    &&& st matches FetchState::Failed { error } && name_failure(snames, q, error)
                    &&& act is Nothing
                }
            },
            None => exists|si: int|
                #![trigger config.suppliers@[si]]
                0 <= si < config.suppliers@.len() && loading_state(config, tags, ratios, si, st, act),
        }
    }
}

/// The first transition of a run: resolve the category name if one was
/// given, compose the search parameters, select a supplier, and ask for its
/// definition file — or fail with the precise error that the inputs force.
pub open spec fn begin_post(
    config: GlobalConfig,
    args: FetchArgs,
    st: FetchState,
    act: Action,
) -> bool {
    let cnames = names_of_categories(config.categories@);
    match args.category {
        Some(q) => {
            if config.categories@.len() == 0 {
                &&& st matches FetchState::Failed {
                    error: FetchError::NoCandidatesConfigured { kind: EntryKind::Category },
                }
                &&& act is Nothing
            } else if resolution_succeeds(cnames, q@) {
                exists|ci: int|
                    #![trigger config.categories@[ci]]
                    0 <= ci < config.categories@.len() && similarity(cnames[ci]@, q@) == q@.len()
                        && after_category(config, args, Some(ci), st, act)
            } else {
                &&& st matches FetchState::Failed { error } && name_failure(cnames, q, error)
                &&& act is Nothing
            }
        },
        None => after_category(config, args, None, st, act),
    }
}

/// Which events answer which states.
pub open spec fn event_fits(state: FetchState, event: FetchEvent) -> bool {
    match (state, event) {
        (FetchState::Start, FetchEvent::Begin) => true,
        (FetchState::LoadingSupplier { .. }, FetchEvent::SupplierLoaded { .. }) => true,
        (FetchState::Fetching, FetchEvent::Fetched { .. }) => true,
        (FetchState::Persisting { .. }, FetchEvent::Persisted { .. }) => true,
        (FetchState::Applying { .. }, FetchEvent::Applied { .. }) => true,
        _ => false,
    }
}

/// After the supplier definition was loaded: fetch with the stored
/// parameters, or fail with the error matching the load outcome.
pub open spec fn loaded_post(
    params: SearchParameters,
    outcome: SupplierLoadOutcome,
    st: FetchState,
    act: Action,
) -> bool {
    match outcome {
        SupplierLoadOutcome::Loaded => {
            &&& st is Fetching
            &&& act matches Action::FetchImage { params: p2 } && p2.tags@ == params.tags@
                && p2.aspect_ratios@ == params.aspect_ratios@
        },
        SupplierLoadOutcome::Unreadable => {
            &&& st matches FetchState::Failed { error: FetchError::SupplierDefinitionUnreadable }
            &&& act is Nothing
        },
        SupplierLoadOutcome::Malformed => {
            &&& st matches FetchState::Failed { error: FetchError::SupplierDefinitionMalformed }
            &&& act is Nothing
        },
    }
}

/// After the fetch: persist the image at the caller's explicit path when one
/// was given (leaving the cache untouched), else at its content-addressed
/// cache path; a failed fetch ends the run.
pub open spec fn fetched_post(
    config: GlobalConfig,
    args: FetchArgs,
    image: Option<ImageHandle>,
    st: FetchState,
    act: Action,
) -> bool {
    match image {
        Some(img) => {
            &&& st matches FetchState::Persisting { explicit } && explicit == (args.output is Some)
            &&& act matches Action::Persist { target, image: img2 } && img2 == img && (
            match args.output {
                Some(p) => target matches PersistTarget::Explicit { path } && path@ == p@,
                None => target matches PersistTarget::Cache { path } && path@ == cache_path_of(
                    config.cache_root@,
                    img.bytes@,
                    img.format,
                ),
            })
        },
        None => {
            &&& st matches FetchState::Failed { error: FetchError::FetchFailed }
            &&& act is Nothing
        },
    }
}

/// After persisting: done, unless the caller asked to apply the image, in
/// which case the configured command template is built with the persisted
/// path — or its absence fails the run, the image staying persisted.
pub open spec fn persisted_post(
    config: GlobalConfig,
    args: FetchArgs,
    path: Option<String>,
    st: FetchState,
    act: Action,
) -> bool {
    match path {
        Some(p) => {
            if args.assign {
                match config.set_command {
                    Some(t) => {
                        &&& st matches FetchState::Applying { path: p2 } && p2@ == p@
                        &&& act matches Action::RunCommand { program, args: cargs } && exists|
                            tokens: Seq<Seq<char>>,
                        |
                            apply_command_from(t@, p@, program@, cargs.deep_view(), tokens)
                    },
                    None => {
                        &&& st matches FetchState::Failed {
                            error: FetchError::MissingApplyCommand,
                        }
                        &&& act is Nothing
                    },
                }
            } else {
                &&& st matches FetchState::Done { path: p2, apply } && p2@ == p@ && apply
                    == ApplyOutcome::NotRequested
                &&& act is Nothing
            }
        },
        None => {
            &&& st matches FetchState::Failed { error: FetchError::PersistenceFailed }
            &&& act is Nothing
        },
    }
}

/// After the external command ran: the run is done either way; its outcome
/// is reported beside the persisted path and never rolls the image back.
pub open spec fn applied_post(path: String, success: bool, st: FetchState, act: Action) -> bool {
    &&& st matches FetchState::Done { path: p2, apply } && p2@ == path@ && apply == (
    if success {
        ApplyOutcome::Succeeded
    } else {
        ApplyOutcome::CommandFailed
    })
    &&& act is Nothing
}

/// Relies on rand::random_range over `0..n`: a uniformly random value of the
/// given non-empty range. Only membership in the range is assumed of the
/// result; callers treat it as arbitrary.
#[verifier::external_body]
fn random_index(n: usize) -> (r: usize)
    requires
        n > 0,
    ensures
        r < n,
{
    rand::random_range(0..n)
}

fn clone_strings(v: &Vec<String>) -> (r: Vec<String>)
    ensures
        r@ == v@,
{
    let mut r: Vec<String> = Vec::new();
    let mut i: usize = 0;
    while i < v.len()
        invariant
            i <= v.len(),
            r@ == v@.subrange(0, i as int),
        decreases v.len() - i,
    {
        r.push(v[i].clone());
        proof {
            assert(v@.subrange(0, i as int + 1) =~= v@.subrange(0, i as int).push(v@[i as int]));
        }
        i = i + 1;
    }
    proof {
        assert(v@.subrange(0, v@.len() as int) =~= v@);
    }
    r
}

fn category_name_vec(cats: &Vec<Category>) -> (names: Vec<String>)
    ensures
        names@ == names_of_categories(cats@),
{
    let mut names: Vec<String> = Vec::new();
    let mut i: usize = 0;
    while i < cats.len()
        invariant
            i <= cats.len(),
            names@ == names_of_categories(cats@).subrange(0, i as int),
        decreases cats.len() - i,
    {
        names.push(cats[i].name.clone());
        proof {
            let full = names_of_categories(cats@);
            assert(full.subrange(0, i as int + 1) =~= full.subrange(0, i as int).push(
                full[i as int],
            ));
        }
        i = i + 1;
    }
    proof {
        assert(names_of_categories(cats@).subrange(0, cats@.len() as int) =~= names_of_categories(
            cats@,
        ));
    }
    names
}

fn supplier_name_vec(sups: &Vec<SupplierRef>) -> (names: Vec<String>)
    ensures
        names@ == names_of_suppliers(sups@),
{
    let mut names: Vec<String> = Vec::new();
    let mut i: usize = 0;
    while i < sups.len()
        invariant
            i <= sups.len(),
            names@ == names_of_suppliers(sups@).subrange(0, i as int),
        decreases sups.len() - i,
    {
        names.push(sups[i].name.clone());
        proof {
            let full = names_of_suppliers(sups@);
            assert(full.subrange(0, i as int + 1) =~= full.subrange(0, i as int).push(
                full[i as int],
            ));
        }
        i = i + 1;
    }
    proof {
        assert(names_of_suppliers(sups@).subrange(0, sups@.len() as int) =~= names_of_suppliers(
            sups@,
        ));
    }
    names
}

fn name_error(query: &String, e: ResolutionError) -> (r: FetchError)
    ensures
        r == (match e {
            ResolutionError::UnknownName { suggestions } => FetchError::UnknownName {
                query: *query,
                suggestions,
            },
            ResolutionError::AmbiguousName { suggestion } => FetchError::AmbiguousName {
                query: *query,
                suggestion,
            },
        }),
{
    match e {
        ResolutionError::UnknownName { suggestions } => FetchError::UnknownName {
            query: query.clone(),
            suggestions,
        },
        ResolutionError::AmbiguousName { suggestion } => FetchError::AmbiguousName {
            query: query.clone(),
            suggestion,
        },
    }
}

/// Joins a root directory and a relative path with a single separator.
pub fn path_join(root: &str, rel: &str) -> (r: String)
    ensures
        r@ == root@ + "/"@ + rel@,
{
    let mut s = root.to_owned();
    s.append("/");
    s.append(rel);
    s
}

/// Starts a run: resolves the category name if one was given, composes the
/// search parameters, selects a supplier (resolving its name, or picking one
/// at random when none was named), and asks the runner to load the selected
/// supplier's definition file. Fails, without any further action, exactly as
/// the inputs force: empty candidate lists, an unknown name, or an ambiguous
/// name.
pub fn begin_fetch(config: &GlobalConfig, args: &FetchArgs) -> (r: (FetchState, Action))
    ensures
        begin_post(*config, *args, r.0, r.1),
{
    let category_index: Option<usize> = match &args.category {
        Some(q) => {
            if config.categories.len() == 0 {
                return (
                    FetchState::Failed {
                        error: FetchError::NoCandidatesConfigured { kind: EntryKind::Category },
                    },
                    Action::Nothing,
                );
            }
            let names = category_name_vec(&config.categories);
            match resolve(&names, q.as_str()) {
                Ok(i) => Some(i),
                Err(e) => {
                    return (
                        FetchState::Failed { error: name_error(q, e) },
                        Action::Nothing,
                    );
                },
            }
        },
        None => None,
    };
    let ad_hoc = clone_strings(&args.tags);
    let params = match category_index {
        Some(i) => compose(Some(&config.categories[i]), ad_hoc),
        None => compose(None, ad_hoc),
    };
    if config.suppliers.len() == 0 {
        let st = FetchState::Failed {
            error: FetchError::NoCandidatesConfigured { kind: EntryKind::Supplier },
        };
        let act = Action::Nothing;
        proof {
            match category_index {
                Some(i) => {
                    let cref = config.categories@[i as int];
                    assert(after_category(*config, *args, Some(i as int), st, act));
                },
                None => {
                    assert(after_category(*config, *args, None, st, act));
                },
            }
        }
        return (st, act);
    }
    let supplier_index: usize = match &args.supplier {
        Some(q) => {
            let names = supplier_name_vec(&config.suppliers);
            match resolve(&names, q.as_str()) {
                Ok(i) => i,
                Err(e) => {
                    let st = FetchState::Failed { error: name_error(q, e) };
                    let act = Action::Nothing;
                    proof {
                        match category_index {
                            Some(i) => {
                                // mentions the resolved entry, the witness
                                // for the existential over category indices
                                let cref = config.categories@[i as int];
                                assert(after_category(*config, *args, Some(i as int), st, act));
                            },
                            None => {
                                assert(after_category(*config, *args, None, st, act));
                            },
                        }
                    }
                    return (st, act);
                },
            }
        },
        None => random_index(config.suppliers.len()),
    };
    let file_path = path_join(
        config.config_root.as_str(),
        config.suppliers[supplier_index].file.as_str(),
    );
    let st = FetchState::LoadingSupplier { params, supplier_index };
    let act = Action::LoadSupplier { file_path };
    proof {
        let sref = config.suppliers@[supplier_index as int];
        match category_index {
            Some(i) => {
                let cref = config.categories@[i as int];
                let tags = args.tags@ + config.categories@[i as int].tags@;
                let ratios = match config.categories@[i as int].aspect_ratios {
                    Some(r) => r@,
                    None => Seq::<AspectRatio>::empty(),
                };
                assert(loading_state(*config, tags, ratios, supplier_index as int, st, act));
                assert(after_category(*config, *args, Some(i as int), st, act));
            },
            None => {
                let tags = args.tags@;
                let ratios = Seq::<AspectRatio>::empty();
                assert(loading_state(*config, tags, ratios, supplier_index as int, st, act));
                assert(after_category(*config, *args, None, st, act));
            },
        }
    }
    (st, act)
}

/// One transition of the orchestrator: consumes the current state and the
/// event answering the last action, and returns the next state together with
/// the next action for the runner.
pub fn step(config: &GlobalConfig, args: &FetchArgs, state: FetchState, event: FetchEvent) -> (r: (
    FetchState,
    Action,
))
    requires
        event_fits(state, event),
    ensures
        (state is Start && event is Begin) ==> begin_post(*config, *args, r.0, r.1),
        state matches FetchState::LoadingSupplier { params, .. } ==> (event
            matches FetchEvent::SupplierLoaded { outcome } ==> loaded_post(
            params,
            outcome,
            r.0,
            r.1,
        )),
        state is Fetching ==> (event matches FetchEvent::Fetched { image } ==> fetched_post(
            *config,
            *args,
            image,
            r.0,
            r.1,
        )),
        state matches FetchState::Persisting { .. } ==> (event matches FetchEvent::Persisted {
            path,
        } ==> persisted_post(*config, *args, path, r.0, r.1)),
        state matches FetchState::Applying { path } ==> (event matches FetchEvent::Applied {
            success,
        } ==> applied_post(path, success, r.0, r.1)),
{
    match (state, event) {
        (FetchState::Start, FetchEvent::Begin) => begin_fetch(config, args),
        (
            FetchState::LoadingSupplier { params, supplier_index: _ },
            FetchEvent::SupplierLoaded { outcome },
        ) => match outcome {
            SupplierLoadOutcome::Loaded => {
                let r = (FetchState::Fetching, Action::FetchImage { params });
                r
            },
            SupplierLoadOutcome::Unreadable => {
                let r = (
                    FetchState::Failed { error: FetchError::SupplierDefinitionUnreadable },
                    Action::Nothing,
                );
                r
            },
            SupplierLoadOutcome::Malformed => {
                let r = (
                    FetchState::Failed { error: FetchError::SupplierDefinitionMalformed },
                    Action::Nothing,
                );
                r
            },
        },
        (FetchState::Fetching, FetchEvent::Fetched { image }) => match image {
            Some(img) => match &args.output {
                Some(p) => {
                    let r = (
                        FetchState::Persisting { explicit: true },
                        Action::Persist {
                            target: PersistTarget::Explicit { path: p.clone() },
                            image: img,
                        },
                    );
                    r
                },
                None => {
                    let cp = cache_path(config.cache_root.as_str(), &img);
                    let r = (
                        FetchState::Persisting { explicit: false },
                        Action::Persist { target: PersistTarget::Cache { path: cp }, image: img },
                    );
                    r
                },
            },
            None => {
                let r = (FetchState::Failed { error: FetchError::FetchFailed }, Action::Nothing);
                r
            },
        },
        (FetchState::Persisting { explicit: _ }, FetchEvent::Persisted { path }) => match path {
            Some(p) => {
                let ghost gp = p;
                if args.assign {
                    match &config.set_command {
                        Some(t) => {
                            let cmd = build_apply_command(t.as_str(), p.as_str());
                            let ghost tk = choose|tokens: Seq<Seq<char>>|
                                apply_command_from(
                                    t@,
                                    p@,
                                    cmd.program@,
                                    cmd.args.deep_view(),
                                    tokens,
                                );
                            let r = (
                                FetchState::Applying { path: p },
                                Action::RunCommand { program: cmd.program, args: cmd.args },
                            );
                            proof {
                                match &r.1 {
                                    Action::RunCommand { program, args: cargs } => {
                                        assert(apply_command_from(
                                            t@,
                                            gp@,
                                            program@,
                                            cargs.deep_view(),
                                            tk,
                                        ));
                                    },
                                    _ => {
                                        assert(false);
                                    },
                                }
                                assert(persisted_post(*config, *args, Some(gp), r.0, r.1));
                            }
                            r
                        },
                        None => {
                            let r = (
                                FetchState::Failed { error: FetchError::MissingApplyCommand },
                                Action::Nothing,
                            );
                            r
                        },
                    }
                } else {
                    let r = (
                        FetchState::Done { path: p, apply: ApplyOutcome::NotRequested },
                        Action::Nothing,
                    );
                    r
                }
            },
            None => {
                let r = (
                    FetchState::Failed { error: FetchError::PersistenceFailed },
                    Action::Nothing,
                );
                r
            },
        },
        (FetchState::Applying { path }, FetchEvent::Applied { success }) => {
            let r = (
                FetchState::Done {
                    path,
                    apply: if success {
                        ApplyOutcome::Succeeded
                    } else {
                        ApplyOutcome::CommandFailed
                    },
                },
                Action::Nothing,
            );
            r
        },
        _ => {
            proof {
                assert(false);
            }
            (FetchState::Start, Action::Nothing)
        },
    }
}

} // verus!
