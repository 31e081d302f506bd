//! The artifacts that turn a single-machine workload into a distributed one:
//! a Chapel program that spreads the items across locales and gathers the
//! results, a Zig bridge to the user's code, a C header for that code and a
//! build script, together with the names of the files they go to and the
//! decisions of the build.

use vstd::prelude::*;
use vstd::string::*;
use crate::abi::{
    GatherStrategy,
    PartitionStrategy,
    parse_gather_strategy,
    parse_partition_strategy,
};
use crate::templates::{
    BINARY_SUFFIX,
    CHAPEL_DIR,
    CHAPEL_FILE_SUFFIX,
    CHECKPOINT_LOAD_HOOK,
    CHECKPOINT_SAVE_HOOK,
    C_CHECKPOINT_LOAD,
    C_CHECKPOINT_SAVE,
    C_DESERIALIZE,
    C_FREE_ITEM,
    C_GET_TOTAL_ITEMS,
    C_INIT,
    C_IS_MATCH,
    C_KEY_HASH,
    C_LOAD_ITEM,
    C_PROCESS_CHUNK,
    C_PROCESS_ITEM,
    C_REDUCE,
    C_SERIALIZE,
    C_SHUTDOWN,
    C_STORE_RESULT,
    DESERIALIZE_HOOK,
    EXPORT_FN,
    EXTERN_PROC,
    FIRST_TEXT,
    FREE_HOOK,
    GET_TOTAL_ITEMS_HOOK,
    INIT_HOOK,
    IS_MATCH_HOOK,
    KEYED_TEXT,
    KEY_HASH_HOOK,
    LOAD_ITEM_HOOK,
    MERGE_TEXT,
    OUTPUT_FLAG,
    PATH_SEPARATOR,
    PER_ITEM_TEXT,
    PROCESS_CHUNK_HOOK,
    PROCESS_ITEM_HOOK,
    REDUCE_HOOK,
    SERIALIZE_HOOK,
    SHUTDOWN_HOOK,
    SPATIAL_TEXT,
    STORE_RESULT_HOOK,
    STREAM_TEXT,
    TREE_REDUCE_TEXT,
    ZIG_DIR,
    ZIG_FILE_SUFFIX,
    adaptive_distribution,
    adaptive_distribution_text,
    build_script,
    build_script_text,
    c_header,
    c_header_text,
    chapel_program,
    chapel_program_text,
    chunk_distribution,
    chunk_distribution_text,
    reduce_gather,
    reduce_gather_text,
    zig_bridge,
    zig_bridge_text,
};
use crate::text::{
    append_decimal,
    bool_str,
    bool_text,
    dashes_to_underscores,
    decimal_text,
    identifier_stem,
    to_uppercase,
    uppercase_of,
};

verus! {

/// The distribution section of the Chapel program for a partition strategy,
/// with the grain in decimal and the workload's identifier stem.
pub open spec fn distribution_text(
    strategy: Option<PartitionStrategy>,
    grain: Seq<char>,
    stem: Seq<char>,
) -> Seq<char> {
    match strategy {
        Some(PartitionStrategy::PerItem) => PER_ITEM_TEXT@,
        Some(PartitionStrategy::Chunk) => chunk_distribution_text(grain),
        Some(PartitionStrategy::Adaptive) => adaptive_distribution_text(stem),
        Some(PartitionStrategy::Spatial) => SPATIAL_TEXT@,
        Some(PartitionStrategy::Keyed) => KEYED_TEXT@,
        None => UNKNOWN_PARTITION_TEXT@,
    }
}

/// The gather section of the Chapel program for a gather strategy.
pub open spec fn gather_text(strategy: Option<GatherStrategy>, stem: Seq<char>) -> Seq<char> {
    match strategy {
        Some(GatherStrategy::Merge) => MERGE_TEXT@,
        Some(GatherStrategy::Reduce) => reduce_gather_text(stem),
        Some(GatherStrategy::TreeReduce) => TREE_REDUCE_TEXT@,
        Some(GatherStrategy::Stream) => STREAM_TEXT@,
        Some(GatherStrategy::First) => FIRST_TEXT@,
        None => UNKNOWN_GATHER_TEXT@,
    }
}

/// Placeholder comment for a partition strategy that no section exists for.
pub const UNKNOWN_PARTITION_TEXT: &'static str = "// Unknown partition strategy — see chapeliser.toml";

/// Placeholder comment for a gather strategy that no section exists for.
pub const UNKNOWN_GATHER_TEXT: &'static str = "// Unknown gather strategy";

/// The distribution section of the Chapel program for a partition strategy.
pub fn distribution_code(strategy: Option<PartitionStrategy>, grain: &str, stem: &str) -> (res:
    String)
    ensures
        res@ == distribution_text(strategy, grain@, stem@),
{
    match strategy {
        Some(PartitionStrategy::PerItem) => PER_ITEM_TEXT.to_owned(),
        Some(PartitionStrategy::Chunk) => chunk_distribution(grain),
        Some(PartitionStrategy::Adaptive) => adaptive_distribution(stem),
        Some(PartitionStrategy::Spatial) => SPATIAL_TEXT.to_owned(),
        Some(PartitionStrategy::Keyed) => KEYED_TEXT.to_owned(),
        None => UNKNOWN_PARTITION_TEXT.to_owned(),
    }
}

/// The gather section of the Chapel program for a gather strategy.
pub fn gather_code(strategy: Option<GatherStrategy>, stem: &str) -> (res: String)
    ensures
        res@ == gather_text(strategy, stem@),
{
    match strategy {
        Some(GatherStrategy::Merge) => MERGE_TEXT.to_owned(),
        Some(GatherStrategy::Reduce) => reduce_gather(stem),
        Some(GatherStrategy::TreeReduce) => TREE_REDUCE_TEXT.to_owned(),
        Some(GatherStrategy::Stream) => STREAM_TEXT.to_owned(),
        Some(GatherStrategy::First) => FIRST_TEXT.to_owned(),
        None => UNKNOWN_GATHER_TEXT.to_owned(),
    }
}

/// The resilience settings of a workload: how often a failed item is
/// retried, whether progress is checkpointed, and how many seconds apart.
#[derive(Debug, Clone, Copy, PartialEq, Eq, Structural)]
pub struct Resilience {
    /// Extra attempts for an item whose processing fails.
    pub retries: u32,
    /// Whether stored results are checkpointed.
    pub checkpoint: bool,
    /// Seconds between checkpoints.
    pub checkpoint_interval_secs: u64,
}

/// The whole Chapel program for a workload: its name, the manifest's
/// partition and gather strings, its grain size and resilience settings.
pub open spec fn chapel_wrapper_text(
    name: Seq<char>,
    partition: Seq<char>,
    gather: Seq<char>,
    grain: nat,
    resilience: Resilience,
) -> Seq<char> {
    let stem = dashes_to_underscores(name);
    chapel_program_text(
        name,
        partition,
        gather,
        stem,
        decimal_text(resilience.retries as nat),
        bool_text(resilience.checkpoint),
        decimal_text(resilience.checkpoint_interval_secs as nat),
        decimal_text(grain),
        distribution_text(parse_partition_strategy(partition), decimal_text(grain), stem),
        gather_text(parse_gather_strategy(gather), stem),
    )
}

/// The Chapel program that distributes the workload across locales.
pub fn chapel_wrapper_source(
    name: &str,
    partition: &str,
    gather: &str,
    grain: u64,
    resilience: Resilience,
) -> (res: String)
    ensures
        res@ == chapel_wrapper_text(name@, partition@, gather@, grain as nat, resilience),
{
    let stem = identifier_stem(name);
    let mut grain_text = String::new();
    append_decimal(&mut grain_text, grain);
    let mut retries_text = String::new();
    append_decimal(&mut retries_text, resilience.retries as u64);
    let mut interval_text = String::new();
    append_decimal(&mut interval_text, resilience.checkpoint_interval_secs);
    let distribution = distribution_code(
        PartitionStrategy::from_str(partition),
        grain_text.as_str(),
        stem.as_str(),
    );
    let gathering = gather_code(GatherStrategy::from_str(gather), stem.as_str());
    chapel_program(
        name,
        partition,
        gather,
        stem.as_str(),
        retries_text.as_str(),
        bool_str(resilience.checkpoint),
        interval_text.as_str(),
        grain_text.as_str(),
        distribution.as_str(),
        gathering.as_str(),
    )
}

/// The Zig bridge for a workload.
pub fn zig_ffi_source(name: &str) -> (res: String)
    ensures
        res@ == zig_bridge_text(name@, dashes_to_underscores(name@)),
{
    let stem = identifier_stem(name);
    zig_bridge(name, stem.as_str())
}

/// The C header for a workload, guarded by the upper-cased identifier stem.
pub fn c_header_source(name: &str) -> (res: String)
    ensures
        res@ == c_header_text(
            name@,
            uppercase_of(dashes_to_underscores(name@)),
            dashes_to_underscores(name@),
        ),
{
    let stem = identifier_stem(name);
    let guard = to_uppercase(stem.as_str());
    c_header(name, guard.as_str(), stem.as_str())
}

/// The build script for a workload.
pub fn build_script_source(name: &str) -> (res: String)
    ensures
        res@ == build_script_text(name@, dashes_to_underscores(name@)),
{
    let stem = identifier_stem(name);
    build_script(name, stem.as_str())
}

/// Subdirectory of the output directory that receives the C header.
pub const INCLUDE_DIR: &'static str = "include";

/// File name of the build script, at the top of the output directory.
pub const BUILD_SCRIPT_FILE: &'static str = "build.sh";

/// Directory in which the emitted artifacts are built and run.
pub const BUILD_DIR: &'static str = "generated/chapeliser";

/// Ending of the C header's file name, after the identifier stem.
pub const HEADER_FILE_SUFFIX: &'static str = "_chapeliser.h";

/// Flag of the distributed program that sets the number of locales.
pub const LOCALES_FLAG: &'static str = "-nl";

/// Chapel compiler flags for an optimised build.
pub const RELEASE_FLAGS: &'static str = "--fast";

/// Chapel compiler flags for an ordinary build.
pub const DEBUG_FLAGS: &'static str = "";

fn stem_with_suffix(name: &str, suffix: &str) -> (res: String)
    ensures
        res@ == dashes_to_underscores(name@) + suffix@,
{
    let mut res = identifier_stem(name);
    res.append(suffix);
    res
}

/// File name of the Chapel program of a workload.
pub fn chapel_file_name(name: &str) -> (res: String)
    ensures
        res@ == dashes_to_underscores(name@) + CHAPEL_FILE_SUFFIX@,
{
    stem_with_suffix(name, CHAPEL_FILE_SUFFIX)
}

/// File name of the Zig bridge of a workload.
pub fn zig_file_name(name: &str) -> (res: String)
    ensures
        res@ == dashes_to_underscores(name@) + ZIG_FILE_SUFFIX@,
{
    stem_with_suffix(name, ZIG_FILE_SUFFIX)
}

/// File name of the C header of a workload.
pub fn header_file_name(name: &str) -> (res: String)
    ensures
        res@ == dashes_to_underscores(name@) + HEADER_FILE_SUFFIX@,
{
    stem_with_suffix(name, HEADER_FILE_SUFFIX)
}

/// Path of the distributed program that the build script produces.
pub fn binary_path(name: &str) -> (res: String)
    ensures
        res@ == BUILD_DIR@ + PATH_SEPARATOR@ + dashes_to_underscores(name@) + BINARY_SUFFIX@,
{
    let stem = identifier_stem(name);
    let mut res = BUILD_DIR.to_owned();
    res.append(PATH_SEPARATOR);
    res.append(stem.as_str());
    res.append(BINARY_SUFFIX);
    res
}

/// The argument that tells the distributed program how many locales to use.
pub fn locale_flag(locales: u32) -> (res: String)
    ensures
        res@ == LOCALES_FLAG@ + decimal_text(locales as nat),
{
    let mut res = LOCALES_FLAG.to_owned();
    append_decimal(&mut res, locales as u64);
    res
}

/// The Chapel compiler flags that a build hands to the build script.
pub fn chapel_flags(release: bool) -> (flags: &'static str)
    ensures
        flags@ == if release { RELEASE_FLAGS@ } else { DEBUG_FLAGS@ },
{
    if release {
        RELEASE_FLAGS
    } else {
        DEBUG_FLAGS
    }
}

/// The outside steps of a build, in the order they are taken.
#[derive(Debug, Clone, Copy, PartialEq, Eq, Structural)]
pub enum BuildStage {
    /// Ask the Chapel compiler for its version.
    ProbeChapel,
    /// Ask the Zig compiler for its version.
    ProbeZig,
    /// Run the emitted build script in the build directory.
    RunScript,
}

/// Why a build stopped.
#[derive(Debug, Clone, Copy, PartialEq, Eq, Structural)]
pub enum BuildFailure {
    /// The Chapel compiler could not be run, or it failed.
    ChapelMissing,
    /// The Zig compiler could not be run, or it failed.
    ZigMissing,
    /// The build script failed.
    ScriptFailed,
}

/// What a build does after one of its steps.
#[derive(Debug, Clone, Copy, PartialEq, Eq, Structural)]
pub enum BuildStep {
    /// Take this step next.
    Next(BuildStage),
    /// Stop, and report the build as failed.
    Stop(BuildFailure),
    /// Stop, and report the build as successful.
    Finished,
}

/// The first step of a build.
pub const FIRST_BUILD_STAGE: BuildStage = BuildStage::ProbeChapel;

/// What follows a build step that succeeded or failed.
pub open spec fn build_transition(stage: BuildStage, succeeded: bool) -> BuildStep {
    match stage {
        BuildStage::ProbeChapel => if succeeded {
            BuildStep::Next(BuildStage::ProbeZig)
        } else {
            BuildStep::Stop(BuildFailure::ChapelMissing)
        },
        BuildStage::ProbeZig => if succeeded {
            BuildStep::Next(BuildStage::RunScript)
        } else {
            BuildStep::Stop(BuildFailure::ZigMissing)
        },
        BuildStage::RunScript => if succeeded {
            BuildStep::Finished
        } else {
            BuildStep::Stop(BuildFailure::ScriptFailed)
        },
    }
}

/// Decides what a build does after one of its steps.
pub fn build_next(stage: BuildStage, succeeded: bool) -> (step: BuildStep)
    ensures
        step == build_transition(stage, succeeded),
{
    match stage {
        BuildStage::ProbeChapel => if succeeded {
            BuildStep::Next(BuildStage::ProbeZig)
        } else {
            BuildStep::Stop(BuildFailure::ChapelMissing)
        },
        BuildStage::ProbeZig => if succeeded {
            BuildStep::Next(BuildStage::RunScript)
        } else {
            BuildStep::Stop(BuildFailure::ZigMissing)
        },
        BuildStage::RunScript => if succeeded {
            BuildStep::Finished
        } else {
            BuildStep::Stop(BuildFailure::ScriptFailed)
        },
    }
}

/// The step that a build reaches from its first step, given the outcomes of
/// the steps taken so far, or `None` once it has stopped or finished.
pub open spec fn build_reaches(outcomes: Seq<bool>) -> Option<BuildStage>
    decreases outcomes.len(),
{
    if outcomes.len() == 0 {
        Some(FIRST_BUILD_STAGE)
    } else {
        match build_reaches(outcomes.drop_last()) {
            Some(stage) => match build_transition(stage, outcomes.last()) {
                BuildStep::Next(next) => Some(next),
                _ => None,
            },
            None => None,
        }
    }
}

/// The build script runs only when both compiler probes succeeded: a build
/// that reaches the script step got there by exactly two successful steps.
pub proof fn lemma_script_runs_only_after_probes(outcomes: Seq<bool>)
    requires
        build_reaches(outcomes) == Some(BuildStage::RunScript),
    ensures
        outcomes.len() == 2,
        outcomes[0],
        outcomes[1],
    decreases outcomes.len(),
{
    let prev = outcomes.drop_last();
    assert(outcomes.len() > 0);
    assert(build_reaches(prev) == Some(BuildStage::ProbeZig));
    assert(prev.len() > 0);
    let first = prev.drop_last();
    assert(build_reaches(first) == Some(BuildStage::ProbeChapel));
    if first.len() > 0 {
        let before = first.drop_last();
        assert(build_reaches(before) is Some);
        assert(false);
    }
}

/// `needle` occurs in `hay` as a run of consecutive characters.
pub open spec fn contains_text(hay: Seq<char>, needle: Seq<char>) -> bool {
    exists|i: int|
        0 <= i && i + needle.len() <= hay.len() && #[trigger] hay.subrange(i, i + needle.len())
            == needle
}

/// `hay` ends with `needle`.
pub open spec fn ends_with_text(hay: Seq<char>, needle: Seq<char>) -> bool {
    needle.len() <= hay.len() && hay.subrange(hay.len() - needle.len(), hay.len() as int) == needle
}

broadcast proof fn lemma_ends_with_last(a: Seq<char>, x: Seq<char>)
    ensures
        #[trigger] ends_with_text(a + x, x),
{
    assert((a + x).subrange((a + x).len() - x.len(), (a + x).len() as int) =~= x);
}

broadcast proof fn lemma_ends_with_extend(a: Seq<char>, n: Seq<char>, x: Seq<char>)
    requires
        ends_with_text(a, n),
    ensures
        #[trigger] ends_with_text(a + x, n + x),
{
    let h = a + x;
    assert(h.subrange(h.len() - (n + x).len(), h.len() as int) =~= n + x);
}

broadcast proof fn lemma_ending_is_contained(a: Seq<char>, n: Seq<char>)
    requires
        ends_with_text(a, n),
    ensures
        #[trigger] contains_text(a, n),
{
    let i = a.len() - n.len();
    assert(a.subrange(i, i + n.len()) == n);
}

/// A text that contains a run still contains it when more text follows.
broadcast proof fn lemma_contains_extend(a: Seq<char>, needle: Seq<char>, b: Seq<char>)
    requires
        contains_text(a, needle),
    ensures
        #[trigger] contains_text(a + b, needle),
{
    let i = choose|i: int|
        0 <= i && i + needle.len() <= a.len() && #[trigger] a.subrange(i, i + needle.len())
            == needle;
    assert((a + b).subrange(i, i + needle.len()) =~= needle);
}

/// The build script builds what the generator writes and what `run` starts:
/// it compiles the Zig bridge and the Chapel program under the directories
/// and file names they are written to, and has the compiler write the
/// program whose path, inside the build directory, `binary_path` gives.
pub proof fn lemma_build_script_names_the_artifacts(name: Seq<char>)
    ensures
        contains_text(
            build_script_text(name, dashes_to_underscores(name)),
            ZIG_DIR@ + PATH_SEPARATOR@ + dashes_to_underscores(name) + ZIG_FILE_SUFFIX@,
        ),
        contains_text(
            build_script_text(name, dashes_to_underscores(name)),
            CHAPEL_DIR@ + PATH_SEPARATOR@ + dashes_to_underscores(name) + CHAPEL_FILE_SUFFIX@,
        ),
        contains_text(
            build_script_text(name, dashes_to_underscores(name)),
            OUTPUT_FLAG@ + dashes_to_underscores(name) + BINARY_SUFFIX@,
        ),
{
    broadcast use
        lemma_contains_extend,
        lemma_ending_is_contained,
        lemma_ends_with_extend,
        lemma_ends_with_last,
    ;

}

/// The C entry points through which the Chapel program reaches the user code.
pub open spec fn c_entry_points() -> Seq<Seq<char>> {
    seq![
        C_INIT@,
        C_SHUTDOWN@,
        C_GET_TOTAL_ITEMS@,
        C_LOAD_ITEM@,
        C_STORE_RESULT@,
        C_PROCESS_ITEM@,
        C_PROCESS_CHUNK@,
        C_REDUCE@,
        C_IS_MATCH@,
        C_KEY_HASH@,
        C_SERIALIZE@,
        C_DESERIALIZE@,
        C_FREE_ITEM@,
        C_CHECKPOINT_SAVE@,
        C_CHECKPOINT_LOAD@,
    ]
}

/// The endings, after the identifier stem, of the functions the user code provides.
pub open spec fn user_hooks() -> Seq<Seq<char>> {
    seq![
        INIT_HOOK@,
        SHUTDOWN_HOOK@,
        GET_TOTAL_ITEMS_HOOK@,
        LOAD_ITEM_HOOK@,
        STORE_RESULT_HOOK@,
        PROCESS_ITEM_HOOK@,
        PROCESS_CHUNK_HOOK@,
        REDUCE_HOOK@,
        IS_MATCH_HOOK@,
        KEY_HASH_HOOK@,
        SERIALIZE_HOOK@,
        DESERIALIZE_HOOK@,
        FREE_HOOK@,
        CHECKPOINT_SAVE_HOOK@,
        CHECKPOINT_LOAD_HOOK@,
    ]
}

/// The Zig bridge exports every C function that the Chapel program declares:
/// for each entry point, whatever the workload, its strategies and its
/// resilience settings, the program holds its `extern proc` declaration and
/// the bridge its `export fn` definition.
#[verifier::rlimit(50)]
pub proof fn lemma_bridge_exports_what_chapel_declares(
    name: Seq<char>,
    partition: Seq<char>,
    gather: Seq<char>,
    grain: nat,
    resilience: Resilience,
    k: int,
)
    requires
        0 <= k < c_entry_points().len(),
    ensures
        contains_text(
            chapel_wrapper_text(name, partition, gather, grain, resilience),
            EXTERN_PROC@ + c_entry_points()[k],
        ),
        contains_text(
            zig_bridge_text(name, dashes_to_underscores(name)),
            EXPORT_FN@ + c_entry_points()[k],
        ),
{
    broadcast use
        lemma_contains_extend,
        lemma_ending_is_contained,
        lemma_ends_with_extend,
        lemma_ends_with_last,
    ;

    let chapel = chapel_wrapper_text(name, partition, gather, grain, resilience);
    let zig = zig_bridge_text(name, dashes_to_underscores(name));
    if k == 0 {
        assert(contains_text(chapel, EXTERN_PROC@ + C_INIT@));
        assert(contains_text(zig, EXPORT_FN@ + C_INIT@));
    } else if k == 1 {
        assert(contains_text(chapel, EXTERN_PROC@ + C_SHUTDOWN@));
        assert(contains_text(zig, EXPORT_FN@ + C_SHUTDOWN@));
    } else if k == 2 {
        assert(contains_text(chapel, EXTERN_PROC@ + C_GET_TOTAL_ITEMS@));
        assert(contains_text(zig, EXPORT_FN@ + C_GET_TOTAL_ITEMS@));
    } else if k == 3 {
        assert(contains_text(chapel, EXTERN_PROC@ + C_LOAD_ITEM@));
        assert(contains_text(zig, EXPORT_FN@ + C_LOAD_ITEM@));
    } else if k == 4 {
        assert(contains_text(chapel, EXTERN_PROC@ + C_STORE_RESULT@));
        assert(contains_text(zig, EXPORT_FN@ + C_STORE_RESULT@));
    } else if k == 5 {
        assert(contains_text(chapel, EXTERN_PROC@ + C_PROCESS_ITEM@));
        assert(contains_text(zig, EXPORT_FN@ + C_PROCESS_ITEM@));
    } else if k == 6 {
        assert(contains_text(chapel, EXTERN_PROC@ + C_PROCESS_CHUNK@));
        assert(contains_text(zig, EXPORT_FN@ + C_PROCESS_CHUNK@));
    } else if k == 7 {
        assert(contains_text(chapel, EXTERN_PROC@ + C_REDUCE@));
        assert(contains_text(zig, EXPORT_FN@ + C_REDUCE@));
    } else if k == 8 {
        assert(contains_text(chapel, EXTERN_PROC@ + C_IS_MATCH@));
        assert(contains_text(zig, EXPORT_FN@ + C_IS_MATCH@));
    } else if k == 9 {
        assert(contains_text(chapel, EXTERN_PROC@ + C_KEY_HASH@));
        assert(contains_text(zig, EXPORT_FN@ + C_KEY_HASH@));
    } else if k == 10 {
        assert(contains_text(chapel, EXTERN_PROC@ + C_SERIALIZE@));
        assert(contains_text(zig, EXPORT_FN@ + C_SERIALIZE@));
    } else if k == 11 {
        assert(contains_text(chapel, EXTERN_PROC@ + C_DESERIALIZE@));
        assert(contains_text(zig, EXPORT_FN@ + C_DESERIALIZE@));
    } else if k == 12 {
        assert(contains_text(chapel, EXTERN_PROC@ + C_FREE_ITEM@));
        assert(contains_text(zig, EXPORT_FN@ + C_FREE_ITEM@));
    } else if k == 13 {
        assert(contains_text(chapel, EXTERN_PROC@ + C_CHECKPOINT_SAVE@));
        assert(contains_text(zig, EXPORT_FN@ + C_CHECKPOINT_SAVE@));
    } else if k == 14 {
        assert(contains_text(chapel, EXTERN_PROC@ + C_CHECKPOINT_LOAD@));
        assert(contains_text(zig, EXPORT_FN@ + C_CHECKPOINT_LOAD@));
    }
}

/// The C header declares every user function that the Zig bridge calls:
/// for each of them, both the header and the bridge name the workload's
/// identifier stem followed by the function's ending.
#[verifier::rlimit(50)]
pub proof fn lemma_header_declares_what_bridge_calls(name: Seq<char>, k: int)
    requires
        0 <= k < user_hooks().len(),
    ensures
        contains_text(
            c_header_text(
                name,
                uppercase_of(dashes_to_underscores(name)),
                dashes_to_underscores(name),
            ),
            dashes_to_underscores(name) + user_hooks()[k],
        ),
        contains_text(
            zig_bridge_text(name, dashes_to_underscores(name)),
            dashes_to_underscores(name) + user_hooks()[k],
        ),
{
    broadcast use
        lemma_contains_extend,
        lemma_ending_is_contained,
        lemma_ends_with_extend,
        lemma_ends_with_last,
    ;

    let s = dashes_to_underscores(name);
    let header = c_header_text(name, uppercase_of(s), s);
    let zig = zig_bridge_text(name, s);
    if k == 0 {
        assert(contains_text(header, s + INIT_HOOK@));
        assert(contains_text(zig, s + INIT_HOOK@));
    } else if k == 1 {
        assert(contains_text(header, s + SHUTDOWN_HOOK@));
        assert(contains_text(zig, s + SHUTDOWN_HOOK@));
    } else if k == 2 {
        assert(contains_text(header, s + GET_TOTAL_ITEMS_HOOK@));
        assert(contains_text(zig, s + GET_TOTAL_ITEMS_HOOK@));
    } else if k == 3 {
        assert(contains_text(header, s + LOAD_ITEM_HOOK@));
        assert(contains_text(zig, s + LOAD_ITEM_HOOK@));
    } else if k == 4 {
        assert(contains_text(header, s + STORE_RESULT_HOOK@));
        assert(contains_text(zig, s + STORE_RESULT_HOOK@));
    } else if k == 5 {
        assert(contains_text(header, s + PROCESS_ITEM_HOOK@));
        assert(contains_text(zig, s + PROCESS_ITEM_HOOK@));
    } else if k == 6 {
        assert(contains_text(header, s + PROCESS_CHUNK_HOOK@));
        assert(contains_text(zig, s + PROCESS_CHUNK_HOOK@));
    } else if k == 7 {
        assert(contains_text(header, s + REDUCE_HOOK@));
        assert(contains_text(zig, s + REDUCE_HOOK@));
    } else if k == 8 {
        assert(contains_text(header, s + IS_MATCH_HOOK@));
        assert(contains_text(zig, s + IS_MATCH_HOOK@));
    } else if k == 9 {
        assert(contains_text(header, s + KEY_HASH_HOOK@));
        assert(contains_text(zig, s + KEY_HASH_HOOK@));
    } else if k == 10 {
        assert(contains_text(header, s + SERIALIZE_HOOK@));
        assert(contains_text(zig, s + SERIALIZE_HOOK@));
    } else if k == 11 {
        assert(contains_text(header, s + DESERIALIZE_HOOK@));
        assert(contains_text(zig, s + DESERIALIZE_HOOK@));
    } else if k == 12 {
        assert(contains_text(header, s + FREE_HOOK@));
        assert(contains_text(zig, s + FREE_HOOK@));
    } else if k == 13 {
        assert(contains_text(header, s + CHECKPOINT_SAVE_HOOK@));
        assert(contains_text(zig, s + CHECKPOINT_SAVE_HOOK@));
    } else if k == 14 {
        assert(contains_text(header, s + CHECKPOINT_LOAD_HOOK@));
        assert(contains_text(zig, s + CHECKPOINT_LOAD_HOOK@));
    }
}

} // verus!
