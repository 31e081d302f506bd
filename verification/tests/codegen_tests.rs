use chapeliser::codegen::{
    binary_path, build_next, build_script_source, c_header_source, chapel_file_name,
    chapel_flags, chapel_wrapper_source, distribution_code, gather_code, header_file_name,
    locale_flag, zig_ffi_source, zig_file_name, BuildFailure, BuildStage, BuildStep, Resilience,
    FIRST_BUILD_STAGE,
};

const DEFAULT_RESILIENCE: Resilience =
    Resilience { retries: 3, checkpoint: false, checkpoint_interval_secs: 300 };
use chapeliser::abi::{GatherStrategy, PartitionStrategy};
use chapeliser::text::identifier_stem;

fn expected_distribution(partition: &str, grain: u64, safe_name: &str) -> String {
    match partition {
        "per-item" => format!(r#"// Per-item distribution: each task gets one item.
// Chapel coforall distributes items across locales automatically.
coforall loc in Locales do on loc {{
  const myChunk = localSlice(allItems, loc.id, numLocales);
  for item in myChunk {{
    const result = processWithRetry(item);
    localResults.pushBack(result);
  }}
}}"#),
        "chunk" => format!(r#"// Chunk distribution: items grouped into chunks of {grain}.
const numChunks = (totalItems + {grain} - 1) / {grain};
coforall chunkIdx in 0..#numChunks do on Locales[chunkIdx % numLocales] {{
  const lo = chunkIdx * {grain};
  const hi = min(lo + {grain}, totalItems);
  const chunkResult = c_process_chunk(allItems, lo, hi);
  localResults.pushBack(chunkResult);
}}"#, grain = grain),
        "adaptive" => format!(r#"// Adaptive distribution: work-stealing with dynamic load balancing.
// Tasks are pulled from a shared queue, not pre-assigned.
var workQueue: shared WorkQueue({safe_name}Item);
workQueue.init(allItems);

coforall loc in Locales do on loc {{
  while true {{
    const (hasWork, item) = workQueue.tryPop();
    if !hasWork then break;
    const result = processWithRetry(item);
    localResults.pushBack(result);
  }}
}}"#, safe_name = safe_name),
        "spatial" => format!(r#"// Spatial distribution: domain decomposition across locales.
// Each locale owns a contiguous region of the input domain.
const Space = allItems.domain;
const DistSpace = Space dmapped Block(boundingBox=Space);
var distData: [DistSpace] itemType = allItems;

forall item in distData {{
  const result = processWithRetry(item);
  localResults[item.locale.id].pushBack(result);
}}"#),
        "keyed" => format!(r#"// Keyed distribution: items routed to locales by key hash.
// All items with the same key land on the same locale.
coforall loc in Locales do on loc {{
  for item in allItems {{
    if keyHash(item) % numLocales:uint == loc.id:uint {{
      const result = processWithRetry(item);
      localResults.pushBack(result);
    }}
  }}
}}"#),
        _ => String::from("// Unknown partition strategy — see chapeliser.toml"),
    }
}

fn expected_gather(gather: &str, safe_name: &str) -> String {
    match gather {
        "merge" => format!(r#"// Merge: concatenate all locale results into final output.
var finalResults: [0..#totalResultCount] outputType;
var offset = 0;
for loc in Locales {{
  on loc {{
    const n = localResults.size;
    finalResults[offset..#n] = localResults.toArray();
    offset += n;
  }}
}}"#),
        "reduce" => format!(r#"// Reduce: apply reduction across all locale results.
var finalResult = identity_{safe_name};
for loc in Locales {{
  on loc {{
    for r in localResults {{
      finalResult = c_reduce(finalResult, r);
    }}
  }}
}}"#, safe_name = safe_name),
        "tree-reduce" => format!(r#"// Tree-reduce: logarithmic reduction for associative operations.
// Halves the number of active locales each round.
var active = numLocales;
while active > 1 {{
  const half = active / 2;
  coforall i in 0..#half {{
    on Locales[i] {{
      const partner = i + half;
      const partnerResults = localResults[partner];
      for r in partnerResults {{
        localResults[i].pushBack(r);
      }}
    }}
  }}
  active = (active + 1) / 2;
}}"#),
        "stream" => format!(r#"// Stream: results sent to coordinator as they complete.
// Uses Chapel channels for back-pressure.
var resultChannel: Channel(outputType);
coforall loc in Locales do on loc {{
  for r in localResults {{
    resultChannel.send(r);
  }}
}}
resultChannel.close();"#),
        "first" => format!(r#"// First: return as soon as any locale produces a result.
// Used for search workloads where you want the first match.
var found: atomic bool;
var firstResult: outputType;
coforall loc in Locales do on loc {{
  for item in myChunk {{
    if found.read() then break;
    const result = c_process_item(item);
    if c_is_match(result) != 0 {{
      if found.testAndSet() == false {{
        firstResult = result;
      }}
      break;
    }}
  }}
}}"#),
        _ => String::from("// Unknown gather strategy"),
    }
}

fn expected_chapel(name: &str, partition: &str, gather: &str, grain: u64, r: Resilience) -> String {
    let safe_name = name.replace('-', "_");
    let distribution_code = expected_distribution(partition, grain, &safe_name);
    let gather_code = expected_gather(gather, &safe_name);
    let retries = r.retries;
    let checkpoint = r.checkpoint;
    let interval = r.checkpoint_interval_secs;
    format!(r#"// SPDX-License-Identifier: PMPL-1.0-or-later
// Auto-generated by Chapeliser — do not edit manually.
// Workload: {name}
// Partition: {partition}, Gather: {gather}
// Regenerate with: chapeliser generate

module {safe_name}_Distributed {{

  // Import the C-ABI FFI bridge (generated Zig, compiled to .o)
  extern proc c_init(): c_int;
  extern proc c_shutdown(): c_int;
  extern proc c_get_total_items(): c_int;
  extern proc c_load_item(idx: c_int): c_ptr(void);
  extern proc c_store_result(idx: c_int, result: c_ptr(void)): c_int;
  extern proc c_process_item(item: c_ptr(void)): c_ptr(void);
  extern proc c_process_chunk(items: c_ptr(void), lo: c_int, hi: c_int): c_ptr(void);
  extern proc c_reduce(a: c_ptr(void), b: c_ptr(void)): c_ptr(void);
  extern proc c_is_match(result: c_ptr(void)): c_int;
  extern proc c_key_hash(item: c_ptr(void)): uint(64);
  extern proc c_serialize(item: c_ptr(void), buf: c_ptr(c_uchar), len: c_ptr(c_size_t)): c_int;
  extern proc c_deserialize(buf: c_ptr(c_uchar), len: c_size_t): c_ptr(void);
  extern proc c_free_item(item: c_ptr(void));
  extern proc c_checkpoint_save(completed: c_int): c_int;
  extern proc c_checkpoint_load(): c_int;

  use CTypes;
  use BlockDist;
  use List;
  use Time;

  // Resilience settings from the manifest's [resilience] section.
  config const maxRetries: int = {retries};
  config const enableCheckpoint: bool = {checkpoint};
  config const checkpointIntervalSecs: int = {interval};

  proc main() {{
    if c_init() != 0 then halt("Chapeliser: c_init failed");
    const totalItems = c_get_total_items(): int;
    const numLocales = Locales.size;
    writeln("Chapeliser: distributing '", "{name}", "' across ", numLocales, " locale(s)");
    writeln("  partition={partition}, gather={gather}, grain={grain}");
    writeln("  retries=", maxRetries, ", checkpoint=", enableCheckpoint, ", interval=", checkpointIntervalSecs, "s");

    // Load every item through the user's loader.
    var allItems: [0..#totalItems] c_ptr(void);
    forall i in 0..#totalItems do allItems[i] = c_load_item(i: c_int);

    // Per-locale result accumulators
    var localResults: [LocaleSpace] list(c_ptr(void));

    // --- Distribution Phase ---
    {distribution_code}

    // --- Gather Phase ---
    {gather_code}

    // --- Store Phase ---
    // Hand every result back, resuming after the last checkpoint if enabled.
    const resumeFrom = if enableCheckpoint then c_checkpoint_load(): int else 0;
    var stored = 0;
    var lastCheckpoint = timeSinceEpoch().totalSeconds();
    for loc in Locales {{
      for r in localResults[loc.id] {{
        if stored >= resumeFrom then c_store_result(stored: c_int, r);
        stored += 1;
        if enableCheckpoint && timeSinceEpoch().totalSeconds() - lastCheckpoint >= checkpointIntervalSecs {{
          c_checkpoint_save(stored: c_int);
          lastCheckpoint = timeSinceEpoch().totalSeconds();
        }}
      }}
    }}
    if enableCheckpoint then c_checkpoint_save(stored: c_int);

    c_shutdown();
    writeln("Chapeliser: workload complete");
  }}

  // Process one item, retrying up to maxRetries more times while it fails.
  proc processWithRetry(item: c_ptr(void)): c_ptr(void) {{
    var result = c_process_item(item);
    var attempt = 0;
    while result == nil && attempt < maxRetries {{
      attempt += 1;
      result = c_process_item(item);
    }}
    return result;
  }}

  // Helper: compute the slice of items belonging to a given locale.
  proc localSlice(allItems, localeId: int, numLocales: int) {{
    const total = allItems.size;
    const chunkSize = (total + numLocales - 1) / numLocales;
    const lo = localeId * chunkSize;
    const hi = min(lo + chunkSize, total);
    return allItems[lo..#(hi - lo)];
  }}

  // Helper: hash a key for keyed distribution, through the user's key function.
  proc keyHash(item): uint {{
    return c_key_hash(item): uint;
  }}
}}
"#)
}

fn expected_zig(name: &str) -> String {
    let safe_name = name.replace('-', "_");
    format!(r#"// SPDX-License-Identifier: PMPL-1.0-or-later
// Auto-generated by Chapeliser — do not edit manually.
// Zig FFI bridge for workload: {name}
// Regenerate with: chapeliser generate

const std = @import("std");

// --- User-provided symbols (link against user's compiled code) ---
// These are the actual processing functions from the user's application.
// Chapeliser expects them to be exported with C linkage.
extern fn {safe_name}_init() callconv(.C) c_int;
extern fn {safe_name}_shutdown() callconv(.C) c_int;
extern fn {safe_name}_get_total_items() callconv(.C) c_int;
extern fn {safe_name}_load_item(idx: c_int) callconv(.C) ?*anyopaque;
extern fn {safe_name}_store_result(idx: c_int, result: ?*anyopaque) callconv(.C) c_int;
extern fn {safe_name}_process_item(item: ?*anyopaque) callconv(.C) ?*anyopaque;
extern fn {safe_name}_process_chunk(items: ?*anyopaque, lo: c_int, hi: c_int) callconv(.C) ?*anyopaque;
extern fn {safe_name}_reduce(a: ?*anyopaque, b: ?*anyopaque) callconv(.C) ?*anyopaque;
extern fn {safe_name}_is_match(result: ?*anyopaque) callconv(.C) c_int;
extern fn {safe_name}_key_hash(item: ?*anyopaque) callconv(.C) u64;
extern fn {safe_name}_serialize(item: ?*anyopaque, buf: [*]u8, len: *usize) callconv(.C) c_int;
extern fn {safe_name}_deserialize(buf: [*]const u8, len: usize) callconv(.C) ?*anyopaque;
extern fn {safe_name}_free(item: ?*anyopaque) callconv(.C) void;
extern fn {safe_name}_checkpoint_save(completed: c_int) callconv(.C) c_int;
extern fn {safe_name}_checkpoint_load() callconv(.C) c_int;

// --- Chapel-facing C-ABI exports ---
// These are called by the generated Chapel code via `extern proc`.

export fn c_init() callconv(.C) c_int {{
    return {safe_name}_init();
}}

export fn c_shutdown() callconv(.C) c_int {{
    return {safe_name}_shutdown();
}}

export fn c_get_total_items() callconv(.C) c_int {{
    return {safe_name}_get_total_items();
}}

export fn c_load_item(idx: c_int) callconv(.C) ?*anyopaque {{
    return {safe_name}_load_item(idx);
}}

export fn c_store_result(idx: c_int, result: ?*anyopaque) callconv(.C) c_int {{
    return {safe_name}_store_result(idx, result);
}}

export fn c_process_item(item: ?*anyopaque) callconv(.C) ?*anyopaque {{
    return {safe_name}_process_item(item);
}}

export fn c_process_chunk(items: ?*anyopaque, lo: c_int, hi: c_int) callconv(.C) ?*anyopaque {{
    return {safe_name}_process_chunk(items, lo, hi);
}}

export fn c_reduce(a: ?*anyopaque, b: ?*anyopaque) callconv(.C) ?*anyopaque {{
    return {safe_name}_reduce(a, b);
}}

export fn c_is_match(result: ?*anyopaque) callconv(.C) c_int {{
    return {safe_name}_is_match(result);
}}

export fn c_key_hash(item: ?*anyopaque) callconv(.C) u64 {{
    return {safe_name}_key_hash(item);
}}

export fn c_serialize(item: ?*anyopaque, buf: [*]u8, len: *usize) callconv(.C) c_int {{
    return {safe_name}_serialize(item, buf, len);
}}

export fn c_deserialize(buf: [*]const u8, len: usize) callconv(.C) ?*anyopaque {{
    return {safe_name}_deserialize(buf, len);
}}

export fn c_free_item(item: ?*anyopaque) callconv(.C) void {{
    {safe_name}_free(item);
}}

export fn c_checkpoint_save(completed: c_int) callconv(.C) c_int {{
    return {safe_name}_checkpoint_save(completed);
}}

export fn c_checkpoint_load() callconv(.C) c_int {{
    return {safe_name}_checkpoint_load();
}}
"#)
}

fn expected_header(name: &str) -> String {
    let safe_name = name.replace('-', "_");
    let upper = safe_name.to_uppercase();
    format!(r#"/* SPDX-License-Identifier: PMPL-1.0-or-later */
/* Auto-generated by Chapeliser — do not edit manually. */
/* C header for workload: {name} */
/* Regenerate with: chapeliser generate */

#ifndef CHAPELISER_{upper}_H
#define CHAPELISER_{upper}_H

#include <stddef.h>
#include <stdint.h>

#ifdef __cplusplus
extern "C" {{
#endif

/*
 * User must implement these functions with C linkage.
 * They are called by the Chapeliser-generated Zig FFI bridge,
 * which is in turn called by the Chapel distributed wrapper.
 *
 * For Rust users: use #[no_mangle] extern "C" fn ...
 * For Zig users: use export fn ... callconv(.C) ...
 * For C users: just implement normally.
 */

/* Set up the user code before any item is loaded. Returns 0 on success. */
int {safe_name}_init(void);

/* Release everything the user code holds. Returns 0 on success. */
int {safe_name}_shutdown(void);

/* Number of work items to distribute. */
int {safe_name}_get_total_items(void);

/* Load work item idx. Returns a pointer to the item. */
void* {safe_name}_load_item(int idx);

/* Store the result for position idx. Returns 0 on success. */
int {safe_name}_store_result(int idx, void* result);

/* Process a single work item. Returns a result pointer. */
void* {safe_name}_process_item(void* item);

/* Process a chunk of items from index lo to hi. Returns aggregated result. */
void* {safe_name}_process_chunk(void* items, int lo, int hi);

/* Reduce two results into one (for reduce/tree-reduce gather). */
void* {safe_name}_reduce(void* a, void* b);

/* Non-zero when a result is a match (for first gather). */
int {safe_name}_is_match(void* result);

/* Hash of an item's key (for keyed partition). */
uint64_t {safe_name}_key_hash(void* item);

/* Serialize an item/result into buf. Sets *len to actual bytes written. */
/* Returns 0 on success, non-zero on error. */
int {safe_name}_serialize(void* item, uint8_t* buf, size_t* len);

/* Deserialize bytes into an item/result. Returns pointer to deserialized object. */
void* {safe_name}_deserialize(const uint8_t* buf, size_t len);

/* Free an item/result allocated by load, process, reduce, or deserialize. */
void {safe_name}_free(void* item);

/* Save a checkpoint after completed results were stored. Returns 0 on success. */
int {safe_name}_checkpoint_save(int completed);

/* Number of results stored before the last checkpoint, or 0. */
int {safe_name}_checkpoint_load(void);

#ifdef __cplusplus
}}
#endif

#endif /* CHAPELISER_{upper}_H */
"#)
}

fn expected_build_script(name: &str) -> String {
    let safe_name = name.replace('-', "_");
    format!(r#"#!/usr/bin/env bash
# SPDX-License-Identifier: PMPL-1.0-or-later
# Auto-generated by Chapeliser — build script for workload: {name}
# Regenerate with: chapeliser generate

set -euo pipefail

echo "=== Chapeliser Build: {name} ==="

# Step 1: Compile the Zig FFI bridge to a C-ABI object file
echo "[1/3] Compiling Zig FFI bridge..."
zig build-obj -O ReleaseFast zig/{safe_name}_ffi.zig -femit-bin={safe_name}_ffi.o

# Step 2: Compile the user's application (adjust for your build system)
echo "[2/3] Linking user code..."
# For Rust: cargo build --release && cp target/release/lib*.a .
# For C:    gcc -c -O2 your_code.c -o user_code.o
# For Zig:  zig build-obj -O ReleaseFast your_code.zig

# Step 3: Compile the Chapel wrapper, linking FFI + user code
echo "[3/3] Compiling Chapel distributed wrapper..."
chpl ${{CHPL_FLAGS---fast}} \
    -I include/ \
    chapel/{safe_name}_distributed.chpl \
    {safe_name}_ffi.o \
    -o {safe_name}_distributed

echo "=== Build complete: ./{safe_name}_distributed ==="
echo "Run with: ./{safe_name}_distributed -nl <num_locales>"
"#)
}

const PARTITIONS: [&str; 6] = ["per-item", "chunk", "adaptive", "spatial", "keyed", "round-robin"];
const GATHERS: [&str; 6] = ["merge", "reduce", "tree-reduce", "stream", "first", "scatter"];

#[test]
fn chapel_program_matches_template_for_every_strategy_pair() {
    for partition in PARTITIONS {
        for gather in GATHERS {
            let got = chapel_wrapper_source("mass-panic", partition, gather, 10, DEFAULT_RESILIENCE);
            assert_eq!(got, expected_chapel("mass-panic", partition, gather, 10, DEFAULT_RESILIENCE), "{partition}/{gather}");
        }
    }
}

#[test]
fn chapel_program_carries_name_strategies_and_grain() {
    let chpl = chapel_wrapper_source("mass-panic", "chunk", "reduce", 250, DEFAULT_RESILIENCE);
    assert!(chpl.contains("// Workload: mass-panic"));
    assert!(chpl.contains("// Partition: chunk, Gather: reduce"));
    assert!(chpl.contains("module mass_panic_Distributed {"));
    assert!(chpl.contains("partition=chunk, gather=reduce, grain=250"));
    assert!(chpl.contains("const numChunks = (totalItems + 250 - 1) / 250;"));
    assert!(chpl.contains("var finalResult = identity_mass_panic;"));
    assert!(chpl.contains("c_process_chunk"));
}

#[test]
fn chapel_program_for_per_item_uses_coforall() {
    let chpl = chapel_wrapper_source("mass-panic", "per-item", "merge", 1, DEFAULT_RESILIENCE);
    assert!(chpl.contains("coforall"));
    assert!(chpl.contains("mass_panic"));
    assert!(chpl.contains("c_process_item"));
    assert!(chpl.contains("// Merge: concatenate all locale results into final output."));
}

#[test]
fn chapel_program_marks_unknown_strategies() {
    let chpl = chapel_wrapper_source("w", "bogus", "bogus", 0, DEFAULT_RESILIENCE);
    assert!(chpl.contains("// Unknown partition strategy — see chapeliser.toml"));
    assert!(chpl.contains("// Unknown gather strategy"));
    assert!(chpl.contains("grain=0"));
}

#[test]
fn sections_match_template() {
    let strategies = [
        ("per-item", Some(PartitionStrategy::PerItem)),
        ("chunk", Some(PartitionStrategy::Chunk)),
        ("adaptive", Some(PartitionStrategy::Adaptive)),
        ("spatial", Some(PartitionStrategy::Spatial)),
        ("keyed", Some(PartitionStrategy::Keyed)),
        ("none", None),
    ];
    for (text, strategy) in strategies {
        assert_eq!(distribution_code(strategy, "64", "job_x"), expected_distribution(text, 64, "job_x"));
    }
    let gathers = [
        ("merge", Some(GatherStrategy::Merge)),
        ("reduce", Some(GatherStrategy::Reduce)),
        ("tree-reduce", Some(GatherStrategy::TreeReduce)),
        ("stream", Some(GatherStrategy::Stream)),
        ("first", Some(GatherStrategy::First)),
        ("none", None),
    ];
    for (text, strategy) in gathers {
        assert_eq!(gather_code(strategy, "job_x"), expected_gather(text, "job_x"));
    }
}

#[test]
fn zig_bridge_matches_template() {
    let zig = zig_ffi_source("mass-panic");
    assert_eq!(zig, expected_zig("mass-panic"));
    assert!(zig.contains("export fn c_process_item"));
    assert!(zig.contains("mass_panic_process_item"));
    assert!(zig.contains("// Zig FFI bridge for workload: mass-panic"));
}

#[test]
fn c_header_matches_template() {
    let h = c_header_source("mass-panic");
    assert_eq!(h, expected_header("mass-panic"));
    assert!(h.contains("#ifndef CHAPELISER_MASS_PANIC_H"));
    assert!(h.contains("#endif /* CHAPELISER_MASS_PANIC_H */"));
    assert!(h.contains("void* mass_panic_process_item(void* item);"));
}

#[test]
fn c_header_guard_is_upper_case() {
    let h = c_header_source("a-b-c");
    assert!(h.contains("#define CHAPELISER_A_B_C_H"));
    assert!(!h.contains("CHAPELISER_a_b_c_H"));
}

#[test]
fn build_script_matches_template() {
    let script = build_script_source("mass-panic");
    assert_eq!(script, expected_build_script("mass-panic"));
    assert!(script.contains("zig/mass_panic_ffi.zig"));
    assert!(script.contains("chapel/mass_panic_distributed.chpl"));
    assert!(script.contains("=== Chapeliser Build: mass-panic ==="));
}

#[test]
fn identifier_stem_replaces_every_dash() {
    assert_eq!(identifier_stem("mass-panic"), "mass_panic");
    assert_eq!(identifier_stem("--a--"), "__a__");
    assert_eq!(identifier_stem("plain"), "plain");
    assert_eq!(identifier_stem(""), "");
    assert_eq!(identifier_stem("é-ü"), "é_ü");
}

#[test]
fn artifact_file_names() {
    assert_eq!(chapel_file_name("mass-panic"), "mass_panic_distributed.chpl");
    assert_eq!(zig_file_name("mass-panic"), "mass_panic_ffi.zig");
    assert_eq!(header_file_name("mass-panic"), "mass_panic_chapeliser.h");
    assert_eq!(binary_path("mass-panic"), "generated/chapeliser/mass_panic_distributed");
}

#[test]
fn locale_flag_is_decimal() {
    assert_eq!(locale_flag(64), "-nl64");
    assert_eq!(locale_flag(0), "-nl0");
    assert_eq!(locale_flag(7), "-nl7");
    assert_eq!(locale_flag(u32::MAX), "-nl4294967295");
}

#[test]
fn release_builds_are_optimised() {
    assert_eq!(chapel_flags(true), "--fast");
    assert_eq!(chapel_flags(false), "");
}

#[test]
fn build_runs_script_only_after_both_probes() {
    assert_eq!(FIRST_BUILD_STAGE, BuildStage::ProbeChapel);
    assert_eq!(build_next(BuildStage::ProbeChapel, true), BuildStep::Next(BuildStage::ProbeZig));
    assert_eq!(
        build_next(BuildStage::ProbeChapel, false),
        BuildStep::Stop(BuildFailure::ChapelMissing)
    );
    assert_eq!(build_next(BuildStage::ProbeZig, true), BuildStep::Next(BuildStage::RunScript));
    assert_eq!(build_next(BuildStage::ProbeZig, false), BuildStep::Stop(BuildFailure::ZigMissing));
    assert_eq!(build_next(BuildStage::RunScript, true), BuildStep::Finished);
    assert_eq!(
        build_next(BuildStage::RunScript, false),
        BuildStep::Stop(BuildFailure::ScriptFailed)
    );
}

#[test]
fn chapel_program_has_lifecycle_for_every_partition() {
    for partition in ["per-item", "chunk", "adaptive", "spatial", "keyed"] {
        let name = format!("test-{partition}");
        let chpl = chapel_wrapper_source(&name, partition, "merge", 10, DEFAULT_RESILIENCE);
        assert!(chpl.contains("c_init"), "Chapel {partition} should call c_init");
        assert!(chpl.contains("c_load_item"), "Chapel {partition} should load items");
        assert!(chpl.contains("c_process_item"), "Chapel {partition} should process items");
        assert!(chpl.contains("processWithRetry"), "Chapel {partition} should have retry logic");
        assert!(chpl.contains("c_store_result"), "Chapel {partition} should store results");
        assert!(chpl.contains("c_shutdown"), "Chapel {partition} should call shutdown");
        assert!(chpl.contains(&format!("module test_{}_Distributed", partition.replace('-', "_"))));
    }
}

#[test]
fn chapel_program_has_gather_specific_code() {
    for gather in ["merge", "reduce", "tree-reduce", "stream", "first"] {
        let chpl = chapel_wrapper_source("test-gather", "per-item", gather, 10, DEFAULT_RESILIENCE);
        match gather {
            "merge" => assert!(chpl.contains("merge"), "merge gather should mention merge"),
            "reduce" => assert!(chpl.contains("c_reduce"), "reduce gather should call c_reduce"),
            "tree-reduce" => assert!(chpl.contains("tree"), "tree-reduce should mention tree"),
            "stream" => assert!(chpl.contains("Stream"), "stream gather should mention stream"),
            "first" => assert!(chpl.contains("c_is_match"), "first gather should call c_is_match"),
            _ => unreachable!(),
        }
    }
}

#[test]
fn chapel_program_carries_resilience_settings() {
    let r = Resilience { retries: 5, checkpoint: true, checkpoint_interval_secs: 60 };
    let chpl = chapel_wrapper_source("checkpoint-test", "per-item", "merge", 10, r);
    assert!(chpl.contains("maxRetries: int = 5"), "Should set maxRetries to 5");
    assert!(chpl.contains("enableCheckpoint: bool = true"), "Should enable checkpointing");
    assert!(chpl.contains("checkpointIntervalSecs: int = 60"), "Should set checkpoint interval");
    assert!(chpl.contains("c_checkpoint_save"), "Should declare checkpoint save FFI");
    let off = chapel_wrapper_source("checkpoint-test", "per-item", "merge", 10, DEFAULT_RESILIENCE);
    assert!(off.contains("maxRetries: int = 3"));
    assert!(off.contains("enableCheckpoint: bool = false"));
    assert!(off.contains("checkpointIntervalSecs: int = 300"));
}

#[test]
fn zig_bridge_exports_every_entry_point() {
    let zig = zig_ffi_source("mass-panic");
    let required_exports = [
        "export fn c_init",
        "export fn c_shutdown",
        "export fn c_get_total_items",
        "export fn c_load_item",
        "export fn c_store_result",
        "export fn c_process_item",
        "export fn c_process_chunk",
        "export fn c_reduce",
        "export fn c_is_match",
        "export fn c_key_hash",
        "export fn c_checkpoint_save",
        "export fn c_checkpoint_load",
    ];
    for export in required_exports {
        assert!(zig.contains(export), "Zig FFI missing export: {export}");
    }
    assert!(zig.contains("mass_panic_init"), "Should declare user's init");
    assert!(zig.contains("mass_panic_shutdown"), "Should declare user's shutdown");
    assert!(zig.contains("mass_panic_process_item"), "Should declare user's process_item");
}

#[test]
fn c_header_declares_lifecycle_functions() {
    let h = c_header_source("mass-panic");
    assert!(h.contains("#ifndef CHAPELISER_MASS_PANIC_H"));
    assert!(h.contains("mass_panic_process_item"));
    assert!(h.contains("mass_panic_init"));
    assert!(h.contains("mass_panic_load_item"));
    assert!(h.contains("mass_panic_store_result"));
}

#[test]
fn build_script_passes_chapel_flags_through() {
    let script = build_script_source("mass-panic");
    assert!(script.contains("chpl ${CHPL_FLAGS---fast} \\"));
    assert!(script.contains("-o mass_panic_distributed"));
}
