//! The fixed text of the artifacts that the distribution tooling emits, and
//! the functions that fill their slots: the workload's name, its identifier
//! stem, its strategies, grain and resilience settings, and the sections
//! chosen for them.

use vstd::prelude::*;
use vstd::string::*;

verus! {

/// Ending, after the identifier stem, of the user function `init`.
pub const INIT_HOOK: &'static str = "_init";

/// C entry point `c_init` that the Chapel program declares and the bridge exports.
pub const C_INIT: &'static str = "c_init";

/// Ending, after the identifier stem, of the user function `shutdown`.
pub const SHUTDOWN_HOOK: &'static str = "_shutdown";

/// C entry point `c_shutdown` that the Chapel program declares and the bridge exports.
pub const C_SHUTDOWN: &'static str = "c_shutdown";

/// Ending, after the identifier stem, of the user function `get_total_items`.
pub const GET_TOTAL_ITEMS_HOOK: &'static str = "_get_total_items";

/// C entry point `c_get_total_items` that the Chapel program declares and the bridge exports.
pub const C_GET_TOTAL_ITEMS: &'static str = "c_get_total_items";

/// Ending, after the identifier stem, of the user function `load_item`.
pub const LOAD_ITEM_HOOK: &'static str = "_load_item";

/// C entry point `c_load_item` that the Chapel program declares and the bridge exports.
pub const C_LOAD_ITEM: &'static str = "c_load_item";

/// Ending, after the identifier stem, of the user function `store_result`.
pub const STORE_RESULT_HOOK: &'static str = "_store_result";

/// C entry point `c_store_result` that the Chapel program declares and the bridge exports.
pub const C_STORE_RESULT: &'static str = "c_store_result";

/// Ending, after the identifier stem, of the user function `process_item`.
pub const PROCESS_ITEM_HOOK: &'static str = "_process_item";

/// C entry point `c_process_item` that the Chapel program declares and the bridge exports.
pub const C_PROCESS_ITEM: &'static str = "c_process_item";

/// Ending, after the identifier stem, of the user function `process_chunk`.
pub const PROCESS_CHUNK_HOOK: &'static str = "_process_chunk";

/// C entry point `c_process_chunk` that the Chapel program declares and the bridge exports.
pub const C_PROCESS_CHUNK: &'static str = "c_process_chunk";

/// Ending, after the identifier stem, of the user function `reduce`.
pub const REDUCE_HOOK: &'static str = "_reduce";

/// C entry point `c_reduce` that the Chapel program declares and the bridge exports.
pub const C_REDUCE: &'static str = "c_reduce";

/// Ending, after the identifier stem, of the user function `is_match`.
pub const IS_MATCH_HOOK: &'static str = "_is_match";

/// C entry point `c_is_match` that the Chapel program declares and the bridge exports.
pub const C_IS_MATCH: &'static str = "c_is_match";

/// Ending, after the identifier stem, of the user function `key_hash`.
pub const KEY_HASH_HOOK: &'static str = "_key_hash";

/// C entry point `c_key_hash` that the Chapel program declares and the bridge exports.
pub const C_KEY_HASH: &'static str = "c_key_hash";

/// Ending, after the identifier stem, of the user function `serialize`.
pub const SERIALIZE_HOOK: &'static str = "_serialize";

/// C entry point `c_serialize` that the Chapel program declares and the bridge exports.
pub const C_SERIALIZE: &'static str = "c_serialize";

/// Ending, after the identifier stem, of the user function `deserialize`.
pub const DESERIALIZE_HOOK: &'static str = "_deserialize";

/// C entry point `c_deserialize` that the Chapel program declares and the bridge exports.
pub const C_DESERIALIZE: &'static str = "c_deserialize";

/// Ending, after the identifier stem, of the user function `free`.
pub const FREE_HOOK: &'static str = "_free";

/// C entry point `c_free_item` that the Chapel program declares and the bridge exports.
pub const C_FREE_ITEM: &'static str = "c_free_item";

/// Ending, after the identifier stem, of the user function `checkpoint_save`.
pub const CHECKPOINT_SAVE_HOOK: &'static str = "_checkpoint_save";

/// C entry point `c_checkpoint_save` that the Chapel program declares and the bridge exports.
pub const C_CHECKPOINT_SAVE: &'static str = "c_checkpoint_save";

/// Ending, after the identifier stem, of the user function `checkpoint_load`.
pub const CHECKPOINT_LOAD_HOOK: &'static str = "_checkpoint_load";

/// C entry point `c_checkpoint_load` that the Chapel program declares and the bridge exports.
pub const C_CHECKPOINT_LOAD: &'static str = "c_checkpoint_load";

/// Keyword that opens a Chapel declaration of a C function.
pub const EXTERN_PROC: &'static str = "extern proc ";

/// Keywords that open a Zig function exported with C linkage.
pub const EXPORT_FN: &'static str = "export fn ";

/// Subdirectory of the output directory that receives the Chapel program.
pub const CHAPEL_DIR: &'static str = "chapel";

/// Subdirectory of the output directory that receives the Zig bridge.
pub const ZIG_DIR: &'static str = "zig";

/// Separator between a directory and a file name in the build script.
pub const PATH_SEPARATOR: &'static str = "/";

/// Ending of the Chapel program's file name, after the identifier stem.
pub const CHAPEL_FILE_SUFFIX: &'static str = "_distributed.chpl";

/// Ending of the Zig bridge's file name, after the identifier stem.
pub const ZIG_FILE_SUFFIX: &'static str = "_ffi.zig";

/// Flag of the Chapel compiler that names the program it writes.
pub const OUTPUT_FLAG: &'static str = "-o ";

/// Ending of the distributed program's file name, after the identifier stem.
pub const BINARY_SUFFIX: &'static str = "_distributed";

pub const PER_ITEM_TEXT: &'static str = r#"// Per-item distribution: each task gets one item.
// Chapel coforall distributes items across locales automatically.
coforall loc in Locales do on loc {
  const myChunk = localSlice(allItems, loc.id, numLocales);
  for item in myChunk {
    const result = processWithRetry(item);
    localResults.pushBack(result);
  }
}"#;
pub const CHUNK_TEXT_1: &'static str = r#"// Chunk distribution: items grouped into chunks of "#;
pub const CHUNK_TEXT_2: &'static str = r#".
const numChunks = (totalItems + "#;
pub const CHUNK_TEXT_3: &'static str = r#" - 1) / "#;
pub const CHUNK_TEXT_4: &'static str = r#";
coforall chunkIdx in 0..#numChunks do on Locales[chunkIdx % numLocales] {
  const lo = chunkIdx * "#;
pub const CHUNK_TEXT_5: &'static str = r#";
  const hi = min(lo + "#;
pub const CHUNK_TEXT_6: &'static str = r#", totalItems);
  const chunkResult = c_process_chunk(allItems, lo, hi);
  localResults.pushBack(chunkResult);
}"#;
pub const ADAPTIVE_TEXT_1: &'static str = r#"// Adaptive distribution: work-stealing with dynamic load balancing.
// Tasks are pulled from a shared queue, not pre-assigned.
var workQueue: shared WorkQueue("#;
pub const ADAPTIVE_TEXT_2: &'static str = r#"Item);
workQueue.init(allItems);

coforall loc in Locales do on loc {
  while true {
    const (hasWork, item) = workQueue.tryPop();
    if !hasWork then break;
    const result = processWithRetry(item);
    localResults.pushBack(result);
  }
}"#;
pub const SPATIAL_TEXT: &'static str = r#"// Spatial distribution: domain decomposition across locales.
// Each locale owns a contiguous region of the input domain.
const Space = allItems.domain;
const DistSpace = Space dmapped Block(boundingBox=Space);
var distData: [DistSpace] itemType = allItems;

forall item in distData {
  const result = processWithRetry(item);
  localResults[item.locale.id].pushBack(result);
}"#;
pub const KEYED_TEXT: &'static str = r#"// Keyed distribution: items routed to locales by key hash.
// All items with the same key land on the same locale.
coforall loc in Locales do on loc {
  for item in allItems {
    if keyHash(item) % numLocales:uint == loc.id:uint {
      const result = processWithRetry(item);
      localResults.pushBack(result);
    }
  }
}"#;
pub const MERGE_TEXT: &'static str = r#"// Merge: concatenate all locale results into final output.
var finalResults: [0..#totalResultCount] outputType;
var offset = 0;
for loc in Locales {
  on loc {
    const n = localResults.size;
    finalResults[offset..#n] = localResults.toArray();
    offset += n;
  }
}"#;
pub const REDUCE_TEXT_1: &'static str = r#"// Reduce: apply reduction across all locale results.
var finalResult = identity_"#;
pub const REDUCE_TEXT_2: &'static str = r#";
for loc in Locales {
  on loc {
    for r in localResults {
      finalResult = c_reduce(finalResult, r);
    }
  }
}"#;
pub const TREE_REDUCE_TEXT: &'static str = r#"// Tree-reduce: logarithmic reduction for associative operations.
// Halves the number of active locales each round.
var active = numLocales;
while active > 1 {
  const half = active / 2;
  coforall i in 0..#half {
    on Locales[i] {
      const partner = i + half;
      const partnerResults = localResults[partner];
      for r in partnerResults {
        localResults[i].pushBack(r);
      }
    }
  }
  active = (active + 1) / 2;
}"#;
pub const STREAM_TEXT: &'static str = r#"// Stream: results sent to coordinator as they complete.
// Uses Chapel channels for back-pressure.
var resultChannel: Channel(outputType);
coforall loc in Locales do on loc {
  for r in localResults {
    resultChannel.send(r);
  }
}
resultChannel.close();"#;
pub const FIRST_TEXT: &'static str = r#"// First: return as soon as any locale produces a result.
// Used for search workloads where you want the first match.
var found: atomic bool;
var firstResult: outputType;
coforall loc in Locales do on loc {
  for item in myChunk {
    if found.read() then break;
    const result = c_process_item(item);
    if c_is_match(result) != 0 {
      if found.testAndSet() == false {
        firstResult = result;
      }
      break;
    }
  }
}"#;
pub const CHAPEL_TEXT_1: &'static str = r#"// SPDX-License-Identifier: PMPL-1.0-or-later
// Auto-generated by Chapeliser — do not edit manually.
// Workload: "#;
pub const CHAPEL_TEXT_2: &'static str = r#"
// Partition: "#;
pub const CHAPEL_TEXT_3: &'static str = r#", Gather: "#;
pub const CHAPEL_TEXT_4: &'static str = r#"
// Regenerate with: chapeliser generate

module "#;
pub const CHAPEL_TEXT_5: &'static str = r#"_Distributed {

  // Import the C-ABI FFI bridge (generated Zig, compiled to .o)
  "#;
pub const CHAPEL_TEXT_6: &'static str = r#"(): c_int;
  "#;
pub const CHAPEL_TEXT_7: &'static str = r#"(): c_int;
  "#;
pub const CHAPEL_TEXT_8: &'static str = r#"(): c_int;
  "#;
pub const CHAPEL_TEXT_9: &'static str = r#"(idx: c_int): c_ptr(void);
  "#;
pub const CHAPEL_TEXT_10: &'static str = r#"(idx: c_int, result: c_ptr(void)): c_int;
  "#;
pub const CHAPEL_TEXT_11: &'static str = r#"(item: c_ptr(void)): c_ptr(void);
  "#;
pub const CHAPEL_TEXT_12: &'static str = r#"(items: c_ptr(void), lo: c_int, hi: c_int): c_ptr(void);
  "#;
pub const CHAPEL_TEXT_13: &'static str = r#"(a: c_ptr(void), b: c_ptr(void)): c_ptr(void);
  "#;
pub const CHAPEL_TEXT_14: &'static str = r#"(result: c_ptr(void)): c_int;
  "#;
pub const CHAPEL_TEXT_15: &'static str = r#"(item: c_ptr(void)): uint(64);
  "#;
pub const CHAPEL_TEXT_16: &'static str = r#"(item: c_ptr(void), buf: c_ptr(c_uchar), len: c_ptr(c_size_t)): c_int;
  "#;
pub const CHAPEL_TEXT_17: &'static str = r#"(buf: c_ptr(c_uchar), len: c_size_t): c_ptr(void);
  "#;
pub const CHAPEL_TEXT_18: &'static str = r#"(item: c_ptr(void));
  "#;
pub const CHAPEL_TEXT_19: &'static str = r#"(completed: c_int): c_int;
  "#;
pub const CHAPEL_TEXT_20: &'static str = r#"(): c_int;

  use CTypes;
  use BlockDist;
  use List;
  use Time;

  // Resilience settings from the manifest's [resilience] section.
  config const maxRetries: int = "#;
pub const CHAPEL_TEXT_21: &'static str = r#";
  config const enableCheckpoint: bool = "#;
pub const CHAPEL_TEXT_22: &'static str = r#";
  config const checkpointIntervalSecs: int = "#;
pub const CHAPEL_TEXT_23: &'static str = r#";

  proc main() {
    if c_init() != 0 then halt("Chapeliser: c_init failed");
    const totalItems = c_get_total_items(): int;
    const numLocales = Locales.size;
    writeln("Chapeliser: distributing '", ""#;
pub const CHAPEL_TEXT_24: &'static str = r#"", "' across ", numLocales, " locale(s)");
    writeln("  partition="#;
pub const CHAPEL_TEXT_25: &'static str = r#", gather="#;
pub const CHAPEL_TEXT_26: &'static str = r#", grain="#;
pub const CHAPEL_TEXT_27: &'static str = r#"");
    writeln("  retries=", maxRetries, ", checkpoint=", enableCheckpoint, ", interval=", checkpointIntervalSecs, "s");

    // Load every item through the user's loader.
    var allItems: [0..#totalItems] c_ptr(void);
    forall i in 0..#totalItems do allItems[i] = c_load_item(i: c_int);

    // Per-locale result accumulators
    var localResults: [LocaleSpace] list(c_ptr(void));

    // --- Distribution Phase ---
    "#;
pub const CHAPEL_TEXT_28: &'static str = r#"

    // --- Gather Phase ---
    "#;
pub const CHAPEL_TEXT_29: &'static str = r#"

    // --- Store Phase ---
    // Hand every result back, resuming after the last checkpoint if enabled.
    const resumeFrom = if enableCheckpoint then c_checkpoint_load(): int else 0;
    var stored = 0;
    var lastCheckpoint = timeSinceEpoch().totalSeconds();
    for loc in Locales {
      for r in localResults[loc.id] {
        if stored >= resumeFrom then c_store_result(stored: c_int, r);
        stored += 1;
        if enableCheckpoint && timeSinceEpoch().totalSeconds() - lastCheckpoint >= checkpointIntervalSecs {
          c_checkpoint_save(stored: c_int);
          lastCheckpoint = timeSinceEpoch().totalSeconds();
        }
      }
    }
    if enableCheckpoint then c_checkpoint_save(stored: c_int);

    c_shutdown();
    writeln("Chapeliser: workload complete");
  }

  // Process one item, retrying up to maxRetries more times while it fails.
  proc processWithRetry(item: c_ptr(void)): c_ptr(void) {
    var result = c_process_item(item);
    var attempt = 0;
    while result == nil && attempt < maxRetries {
      attempt += 1;
      result = c_process_item(item);
    }
    return result;
  }

  // Helper: compute the slice of items belonging to a given locale.
  proc localSlice(allItems, localeId: int, numLocales: int) {
    const total = allItems.size;
    const chunkSize = (total + numLocales - 1) / numLocales;
    const lo = localeId * chunkSize;
    const hi = min(lo + chunkSize, total);
    return allItems[lo..#(hi - lo)];
  }

  // Helper: hash a key for keyed distribution, through the user's key function.
  proc keyHash(item): uint {
    return c_key_hash(item): uint;
  }
}
"#;
pub const ZIG_TEXT_1: &'static str = r#"// SPDX-License-Identifier: PMPL-1.0-or-later
// Auto-generated by Chapeliser — do not edit manually.
// Zig FFI bridge for workload: "#;
pub const ZIG_TEXT_2: &'static str = r#"
// Regenerate with: chapeliser generate

const std = @import("std");

// --- User-provided symbols (link against user's compiled code) ---
// These are the actual processing functions from the user's application.
// Chapeliser expects them to be exported with C linkage.
extern fn "#;
pub const ZIG_TEXT_3: &'static str = r#"() callconv(.C) c_int;
extern fn "#;
pub const ZIG_TEXT_4: &'static str = r#"() callconv(.C) c_int;
extern fn "#;
pub const ZIG_TEXT_5: &'static str = r#"() callconv(.C) c_int;
extern fn "#;
pub const ZIG_TEXT_6: &'static str = r#"(idx: c_int) callconv(.C) ?*anyopaque;
extern fn "#;
pub const ZIG_TEXT_7: &'static str = r#"(idx: c_int, result: ?*anyopaque) callconv(.C) c_int;
extern fn "#;
pub const ZIG_TEXT_8: &'static str = r#"(item: ?*anyopaque) callconv(.C) ?*anyopaque;
extern fn "#;
pub const ZIG_TEXT_9: &'static str = r#"(items: ?*anyopaque, lo: c_int, hi: c_int) callconv(.C) ?*anyopaque;
extern fn "#;
pub const ZIG_TEXT_10: &'static str = r#"(a: ?*anyopaque, b: ?*anyopaque) callconv(.C) ?*anyopaque;
extern fn "#;
pub const ZIG_TEXT_11: &'static str = r#"(result: ?*anyopaque) callconv(.C) c_int;
extern fn "#;
pub const ZIG_TEXT_12: &'static str = r#"(item: ?*anyopaque) callconv(.C) u64;
extern fn "#;
pub const ZIG_TEXT_13: &'static str = r#"(item: ?*anyopaque, buf: [*]u8, len: *usize) callconv(.C) c_int;
extern fn "#;
pub const ZIG_TEXT_14: &'static str = r#"(buf: [*]const u8, len: usize) callconv(.C) ?*anyopaque;
extern fn "#;
pub const ZIG_TEXT_15: &'static str = r#"(item: ?*anyopaque) callconv(.C) void;
extern fn "#;
pub const ZIG_TEXT_16: &'static str = r#"(completed: c_int) callconv(.C) c_int;
extern fn "#;
pub const ZIG_TEXT_17: &'static str = r#"() callconv(.C) c_int;

// --- Chapel-facing C-ABI exports ---
// These are called by the generated Chapel code via `extern proc`.

"#;
pub const ZIG_TEXT_18: &'static str = r#"() callconv(.C) c_int {
    return "#;
pub const ZIG_TEXT_19: &'static str = r#"();
}

"#;
pub const ZIG_TEXT_20: &'static str = r#"() callconv(.C) c_int {
    return "#;
pub const ZIG_TEXT_21: &'static str = r#"();
}

"#;
pub const ZIG_TEXT_22: &'static str = r#"() callconv(.C) c_int {
    return "#;
pub const ZIG_TEXT_23: &'static str = r#"();
}

"#;
pub const ZIG_TEXT_24: &'static str = r#"(idx: c_int) callconv(.C) ?*anyopaque {
    return "#;
pub const ZIG_TEXT_25: &'static str = r#"(idx);
}

"#;
pub const ZIG_TEXT_26: &'static str = r#"(idx: c_int, result: ?*anyopaque) callconv(.C) c_int {
    return "#;
pub const ZIG_TEXT_27: &'static str = r#"(idx, result);
}

"#;
pub const ZIG_TEXT_28: &'static str = r#"(item: ?*anyopaque) callconv(.C) ?*anyopaque {
    return "#;
pub const ZIG_TEXT_29: &'static str = r#"(item);
}

"#;
pub const ZIG_TEXT_30: &'static str = r#"(items: ?*anyopaque, lo: c_int, hi: c_int) callconv(.C) ?*anyopaque {
    return "#;
pub const ZIG_TEXT_31: &'static str = r#"(items, lo, hi);
}

"#;
pub const ZIG_TEXT_32: &'static str = r#"(a: ?*anyopaque, b: ?*anyopaque) callconv(.C) ?*anyopaque {
    return "#;
pub const ZIG_TEXT_33: &'static str = r#"(a, b);
}

"#;
pub const ZIG_TEXT_34: &'static str = r#"(result: ?*anyopaque) callconv(.C) c_int {
    return "#;
pub const ZIG_TEXT_35: &'static str = r#"(result);
}

"#;
pub const ZIG_TEXT_36: &'static str = r#"(item: ?*anyopaque) callconv(.C) u64 {
    return "#;
pub const ZIG_TEXT_37: &'static str = r#"(item);
}

"#;
pub const ZIG_TEXT_38: &'static str = r#"(item: ?*anyopaque, buf: [*]u8, len: *usize) callconv(.C) c_int {
    return "#;
pub const ZIG_TEXT_39: &'static str = r#"(item, buf, len);
}

"#;
pub const ZIG_TEXT_40: &'static str = r#"(buf: [*]const u8, len: usize) callconv(.C) ?*anyopaque {
    return "#;
pub const ZIG_TEXT_41: &'static str = r#"(buf, len);
}

"#;
pub const ZIG_TEXT_42: &'static str = r#"(item: ?*anyopaque) callconv(.C) void {
    "#;
pub const ZIG_TEXT_43: &'static str = r#"(item);
}

"#;
pub const ZIG_TEXT_44: &'static str = r#"(completed: c_int) callconv(.C) c_int {
    return "#;
pub const ZIG_TEXT_45: &'static str = r#"(completed);
}

"#;
pub const ZIG_TEXT_46: &'static str = r#"() callconv(.C) c_int {
    return "#;
pub const ZIG_TEXT_47: &'static str = r#"();
}
"#;
pub const HEADER_TEXT_1: &'static str = r#"/* SPDX-License-Identifier: PMPL-1.0-or-later */
/* Auto-generated by Chapeliser — do not edit manually. */
/* C header for workload: "#;
pub const HEADER_TEXT_2: &'static str = r#" */
/* Regenerate with: chapeliser generate */

#ifndef CHAPELISER_"#;
pub const HEADER_TEXT_3: &'static str = r#"_H
#define CHAPELISER_"#;
pub const HEADER_TEXT_4: &'static str = r#"_H

#include <stddef.h>
#include <stdint.h>

#ifdef __cplusplus
extern "C" {
#endif

/*
 * User must implement these functions with C linkage.
 * They are called by the Chapeliser-generated Zig FFI bridge,
 * which is in turn called by the Chapel distributed wrapper.
 *
 * For Rust users: use #[no_mangle] extern "C" fn ...
 * For Zig users: use export fn ... callconv(.C) ...
 * For C users: just implement normally.
 */

/* Set up the user code before any item is loaded. Returns 0 on success. */
int "#;
pub const HEADER_TEXT_5: &'static str = r#"(void);

/* Release everything the user code holds. Returns 0 on success. */
int "#;
pub const HEADER_TEXT_6: &'static str = r#"(void);

/* Number of work items to distribute. */
int "#;
pub const HEADER_TEXT_7: &'static str = r#"(void);

/* Load work item idx. Returns a pointer to the item. */
void* "#;
pub const HEADER_TEXT_8: &'static str = r#"(int idx);

/* Store the result for position idx. Returns 0 on success. */
int "#;
pub const HEADER_TEXT_9: &'static str = r#"(int idx, void* result);

/* Process a single work item. Returns a result pointer. */
void* "#;
pub const HEADER_TEXT_10: &'static str = r#"(void* item);

/* Process a chunk of items from index lo to hi. Returns aggregated result. */
void* "#;
pub const HEADER_TEXT_11: &'static str = r#"(void* items, int lo, int hi);

/* Reduce two results into one (for reduce/tree-reduce gather). */
void* "#;
pub const HEADER_TEXT_12: &'static str = r#"(void* a, void* b);

/* Non-zero when a result is a match (for first gather). */
int "#;
pub const HEADER_TEXT_13: &'static str = r#"(void* result);

/* Hash of an item's key (for keyed partition). */
uint64_t "#;
pub const HEADER_TEXT_14: &'static str = r#"(void* item);

/* Serialize an item/result into buf. Sets *len to actual bytes written. */
/* Returns 0 on success, non-zero on error. */
int "#;
pub const HEADER_TEXT_15: &'static str = r#"(void* item, uint8_t* buf, size_t* len);

/* Deserialize bytes into an item/result. Returns pointer to deserialized object. */
void* "#;
pub const HEADER_TEXT_16: &'static str = r#"(const uint8_t* buf, size_t len);

/* Free an item/result allocated by load, process, reduce, or deserialize. */
void "#;
pub const HEADER_TEXT_17: &'static str = r#"(void* item);

/* Save a checkpoint after completed results were stored. Returns 0 on success. */
int "#;
pub const HEADER_TEXT_18: &'static str = r#"(int completed);

/* Number of results stored before the last checkpoint, or 0. */
int "#;
pub const HEADER_TEXT_19: &'static str = r#"(void);

#ifdef __cplusplus
}
#endif

#endif /* CHAPELISER_"#;
pub const HEADER_TEXT_20: &'static str = r#"_H */
"#;
pub const BUILD_SCRIPT_TEXT_1: &'static str = r#"#!/usr/bin/env bash
# SPDX-License-Identifier: PMPL-1.0-or-later
# Auto-generated by Chapeliser — build script for workload: "#;
pub const BUILD_SCRIPT_TEXT_2: &'static str = r#"
# Regenerate with: chapeliser generate

set -euo pipefail

echo "=== Chapeliser Build: "#;
pub const BUILD_SCRIPT_TEXT_3: &'static str = r#" ==="

# Step 1: Compile the Zig FFI bridge to a C-ABI object file
echo "[1/3] Compiling Zig FFI bridge..."
zig build-obj -O ReleaseFast "#;
pub const BUILD_SCRIPT_TEXT_4: &'static str = r#" -femit-bin="#;
pub const BUILD_SCRIPT_TEXT_5: &'static str = r#"_ffi.o

# Step 2: Compile the user's application (adjust for your build system)
echo "[2/3] Linking user code..."
# For Rust: cargo build --release && cp target/release/lib*.a .
# For C:    gcc -c -O2 your_code.c -o user_code.o
# For Zig:  zig build-obj -O ReleaseFast your_code.zig

# Step 3: Compile the Chapel wrapper, linking FFI + user code
echo "[3/3] Compiling Chapel distributed wrapper..."
chpl ${CHPL_FLAGS---fast} \
    -I include/ \
    "#;
pub const BUILD_SCRIPT_TEXT_6: &'static str = r#" \
    "#;
pub const BUILD_SCRIPT_TEXT_7: &'static str = r#"_ffi.o \
    "#;
pub const BUILD_SCRIPT_TEXT_8: &'static str = r#"

echo "=== Build complete: ./"#;
pub const BUILD_SCRIPT_TEXT_9: &'static str = r#"_distributed ==="
echo "Run with: ./"#;
pub const BUILD_SCRIPT_TEXT_10: &'static str = r#"_distributed -nl <num_locales>"
"#;

/// The chunked distribution section, for a grain given in decimal.
pub open spec fn chunk_distribution_text(grain: Seq<char>) -> Seq<char> {
    CHUNK_TEXT_1@
        + grain
        + CHUNK_TEXT_2@
        + grain
        + CHUNK_TEXT_3@
        + grain
        + CHUNK_TEXT_4@
        + grain
        + CHUNK_TEXT_5@
        + grain
        + CHUNK_TEXT_6@
}

/// The chunked distribution section, for a grain given in decimal.
pub fn chunk_distribution(grain: &str) -> (res: String)
    ensures
        res@ == chunk_distribution_text(grain@),
{
    let mut res = String::new();
    res.append(CHUNK_TEXT_1);
    res.append(grain);
    res.append(CHUNK_TEXT_2);
    res.append(grain);
    res.append(CHUNK_TEXT_3);
    res.append(grain);
    res.append(CHUNK_TEXT_4);
    res.append(grain);
    res.append(CHUNK_TEXT_5);
    res.append(grain);
    res.append(CHUNK_TEXT_6);
    res
}

/// The work-stealing distribution section for an identifier stem.
pub open spec fn adaptive_distribution_text(stem: Seq<char>) -> Seq<char> {
    ADAPTIVE_TEXT_1@
        + stem
        + ADAPTIVE_TEXT_2@
}

/// The work-stealing distribution section for an identifier stem.
pub fn adaptive_distribution(stem: &str) -> (res: String)
    ensures
        res@ == adaptive_distribution_text(stem@),
{
    let mut res = String::new();
    res.append(ADAPTIVE_TEXT_1);
    res.append(stem);
    res.append(ADAPTIVE_TEXT_2);
    res
}

/// The reduce gather section for an identifier stem.
pub open spec fn reduce_gather_text(stem: Seq<char>) -> Seq<char> {
    REDUCE_TEXT_1@
        + stem
        + REDUCE_TEXT_2@
}

/// The reduce gather section for an identifier stem.
pub fn reduce_gather(stem: &str) -> (res: String)
    ensures
        res@ == reduce_gather_text(stem@),
{
    let mut res = String::new();
    res.append(REDUCE_TEXT_1);
    res.append(stem);
    res.append(REDUCE_TEXT_2);
    res
}

/// The distributed Chapel program, from its filled-in parts.
pub open spec fn chapel_program_text(name: Seq<char>, partition: Seq<char>, gather: Seq<char>, stem: Seq<char>, retries: Seq<char>, checkpoint: Seq<char>, interval: Seq<char>, grain: Seq<char>, distribution: Seq<char>, gathering: Seq<char>) -> Seq<char> {
    CHAPEL_TEXT_1@
        + name
        + CHAPEL_TEXT_2@
        + partition
        + CHAPEL_TEXT_3@
        + gather
        + CHAPEL_TEXT_4@
        + stem
        + CHAPEL_TEXT_5@
        + EXTERN_PROC@
        + C_INIT@
        + CHAPEL_TEXT_6@
        + EXTERN_PROC@
        + C_SHUTDOWN@
        + CHAPEL_TEXT_7@
        + EXTERN_PROC@
        + C_GET_TOTAL_ITEMS@
        + CHAPEL_TEXT_8@
        + EXTERN_PROC@
        + C_LOAD_ITEM@
        + CHAPEL_TEXT_9@
        + EXTERN_PROC@
        + C_STORE_RESULT@
        + CHAPEL_TEXT_10@
        + EXTERN_PROC@
        + C_PROCESS_ITEM@
        + CHAPEL_TEXT_11@
        + EXTERN_PROC@
        + C_PROCESS_CHUNK@
        + CHAPEL_TEXT_12@
        + EXTERN_PROC@
        + C_REDUCE@
        + CHAPEL_TEXT_13@
        + EXTERN_PROC@
        + C_IS_MATCH@
        + CHAPEL_TEXT_14@
        + EXTERN_PROC@
        + C_KEY_HASH@
        + CHAPEL_TEXT_15@
        + EXTERN_PROC@
        + C_SERIALIZE@
        + CHAPEL_TEXT_16@
        + EXTERN_PROC@
        + C_DESERIALIZE@
        + CHAPEL_TEXT_17@
        + EXTERN_PROC@
        + C_FREE_ITEM@
        + CHAPEL_TEXT_18@
        + EXTERN_PROC@
        + C_CHECKPOINT_SAVE@
        + CHAPEL_TEXT_19@
        + EXTERN_PROC@
        + C_CHECKPOINT_LOAD@
        + CHAPEL_TEXT_20@
        + retries
        + CHAPEL_TEXT_21@
        + checkpoint
        + CHAPEL_TEXT_22@
        + interval
        + CHAPEL_TEXT_23@
        + name
        + CHAPEL_TEXT_24@
        + partition
        + CHAPEL_TEXT_25@
        + gather
        + CHAPEL_TEXT_26@
        + grain
        + CHAPEL_TEXT_27@
        + distribution
        + CHAPEL_TEXT_28@
        + gathering
        + CHAPEL_TEXT_29@
}

/// The distributed Chapel program, from its filled-in parts.
pub fn chapel_program(name: &str, partition: &str, gather: &str, stem: &str, retries: &str, checkpoint: &str, interval: &str, grain: &str, distribution: &str, gathering: &str) -> (res: String)
    ensures
        res@ == chapel_program_text(name@, partition@, gather@, stem@, retries@, checkpoint@, interval@, grain@, distribution@, gathering@),
{
    let mut res = String::new();
    res.append(CHAPEL_TEXT_1);
    res.append(name);
    res.append(CHAPEL_TEXT_2);
    res.append(partition);
    res.append(CHAPEL_TEXT_3);
    res.append(gather);
    res.append(CHAPEL_TEXT_4);
    res.append(stem);
    res.append(CHAPEL_TEXT_5);
    res.append(EXTERN_PROC);
    res.append(C_INIT);
    res.append(CHAPEL_TEXT_6);
    res.append(EXTERN_PROC);
    res.append(C_SHUTDOWN);
    res.append(CHAPEL_TEXT_7);
    res.append(EXTERN_PROC);
    res.append(C_GET_TOTAL_ITEMS);
    res.append(CHAPEL_TEXT_8);
    res.append(EXTERN_PROC);
    res.append(C_LOAD_ITEM);
    res.append(CHAPEL_TEXT_9);
    res.append(EXTERN_PROC);
    res.append(C_STORE_RESULT);
    res.append(CHAPEL_TEXT_10);
    res.append(EXTERN_PROC);
    res.append(C_PROCESS_ITEM);
    res.append(CHAPEL_TEXT_11);
    res.append(EXTERN_PROC);
    res.append(C_PROCESS_CHUNK);
    res.append(CHAPEL_TEXT_12);
    res.append(EXTERN_PROC);
    res.append(C_REDUCE);
    res.append(CHAPEL_TEXT_13);
    res.append(EXTERN_PROC);
    res.append(C_IS_MATCH);
    res.append(CHAPEL_TEXT_14);
    res.append(EXTERN_PROC);
    res.append(C_KEY_HASH);
    res.append(CHAPEL_TEXT_15);
    res.append(EXTERN_PROC);
    res.append(C_SERIALIZE);
    res.append(CHAPEL_TEXT_16);
    res.append(EXTERN_PROC);
    res.append(C_DESERIALIZE);
    res.append(CHAPEL_TEXT_17);
    res.append(EXTERN_PROC);
    res.append(C_FREE_ITEM);
    res.append(CHAPEL_TEXT_18);
    res.append(EXTERN_PROC);
    res.append(C_CHECKPOINT_SAVE);
    res.append(CHAPEL_TEXT_19);
    res.append(EXTERN_PROC);
    res.append(C_CHECKPOINT_LOAD);
    res.append(CHAPEL_TEXT_20);
    res.append(retries);
    res.append(CHAPEL_TEXT_21);
    res.append(checkpoint);
    res.append(CHAPEL_TEXT_22);
    res.append(interval);
    res.append(CHAPEL_TEXT_23);
    res.append(name);
    res.append(CHAPEL_TEXT_24);
    res.append(partition);
    res.append(CHAPEL_TEXT_25);
    res.append(gather);
    res.append(CHAPEL_TEXT_26);
    res.append(grain);
    res.append(CHAPEL_TEXT_27);
    res.append(distribution);
    res.append(CHAPEL_TEXT_28);
    res.append(gathering);
    res.append(CHAPEL_TEXT_29);
    res
}

/// The Zig bridge between the Chapel runtime and the user code.
pub open spec fn zig_bridge_text(name: Seq<char>, stem: Seq<char>) -> Seq<char> {
    ZIG_TEXT_1@
        + name
        + ZIG_TEXT_2@
        + stem
        + INIT_HOOK@
        + ZIG_TEXT_3@
        + stem
        + SHUTDOWN_HOOK@
        + ZIG_TEXT_4@
        + stem
        + GET_TOTAL_ITEMS_HOOK@
        + ZIG_TEXT_5@
        + stem
        + LOAD_ITEM_HOOK@
        + ZIG_TEXT_6@
        + stem
        + STORE_RESULT_HOOK@
        + ZIG_TEXT_7@
        + stem
        + PROCESS_ITEM_HOOK@
        + ZIG_TEXT_8@
        + stem
        + PROCESS_CHUNK_HOOK@
        + ZIG_TEXT_9@
        + stem
        + REDUCE_HOOK@
        + ZIG_TEXT_10@
        + stem
        + IS_MATCH_HOOK@
        + ZIG_TEXT_11@
        + stem
        + KEY_HASH_HOOK@
        + ZIG_TEXT_12@
        + stem
        + SERIALIZE_HOOK@
        + ZIG_TEXT_13@
        + stem
        + DESERIALIZE_HOOK@
        + ZIG_TEXT_14@
        + stem
        + FREE_HOOK@
        + ZIG_TEXT_15@
        + stem
        + CHECKPOINT_SAVE_HOOK@
        + ZIG_TEXT_16@
        + stem
        + CHECKPOINT_LOAD_HOOK@
        + ZIG_TEXT_17@
        + EXPORT_FN@
        + C_INIT@
        + ZIG_TEXT_18@
        + stem
        + INIT_HOOK@
        + ZIG_TEXT_19@
        + EXPORT_FN@
        + C_SHUTDOWN@
        + ZIG_TEXT_20@
        + stem
        + SHUTDOWN_HOOK@
        + ZIG_TEXT_21@
        + EXPORT_FN@
        + C_GET_TOTAL_ITEMS@
        + ZIG_TEXT_22@
        + stem
        + GET_TOTAL_ITEMS_HOOK@
        + ZIG_TEXT_23@
        + EXPORT_FN@
        + C_LOAD_ITEM@
        + ZIG_TEXT_24@
        + stem
        + LOAD_ITEM_HOOK@
        + ZIG_TEXT_25@
        + EXPORT_FN@
        + C_STORE_RESULT@
        + ZIG_TEXT_26@
        + stem
        + STORE_RESULT_HOOK@
        + ZIG_TEXT_27@
        + EXPORT_FN@
        + C_PROCESS_ITEM@
        + ZIG_TEXT_28@
        + stem
        + PROCESS_ITEM_HOOK@
        + ZIG_TEXT_29@
        + EXPORT_FN@
        + C_PROCESS_CHUNK@
        + ZIG_TEXT_30@
        + stem
        + PROCESS_CHUNK_HOOK@
        + ZIG_TEXT_31@
        + EXPORT_FN@
        + C_REDUCE@
        + ZIG_TEXT_32@
        + stem
        + REDUCE_HOOK@
        + ZIG_TEXT_33@
        + EXPORT_FN@
        + C_IS_MATCH@
        + ZIG_TEXT_34@
        + stem
        + IS_MATCH_HOOK@
        + ZIG_TEXT_35@
        + EXPORT_FN@
        + C_KEY_HASH@
        + ZIG_TEXT_36@
        + stem
        + KEY_HASH_HOOK@
        + ZIG_TEXT_37@
        + EXPORT_FN@
        + C_SERIALIZE@
        + ZIG_TEXT_38@
        + stem
        + SERIALIZE_HOOK@
        + ZIG_TEXT_39@
        + EXPORT_FN@
        + C_DESERIALIZE@
        + ZIG_TEXT_40@
        + stem
        + DESERIALIZE_HOOK@
        + ZIG_TEXT_41@
        + EXPORT_FN@
        + C_FREE_ITEM@
        + ZIG_TEXT_42@
        + stem
        + FREE_HOOK@
        + ZIG_TEXT_43@
        + EXPORT_FN@
        + C_CHECKPOINT_SAVE@
        + ZIG_TEXT_44@
        + stem
        + CHECKPOINT_SAVE_HOOK@
        + ZIG_TEXT_45@
        + EXPORT_FN@
        + C_CHECKPOINT_LOAD@
        + ZIG_TEXT_46@
        + stem
        + CHECKPOINT_LOAD_HOOK@
        + ZIG_TEXT_47@
}

/// The Zig bridge between the Chapel runtime and the user code.
pub fn zig_bridge(name: &str, stem: &str) -> (res: String)
    ensures
        res@ == zig_bridge_text(name@, stem@),
{
    let mut res = String::new();
    res.append(ZIG_TEXT_1);
    res.append(name);
    res.append(ZIG_TEXT_2);
    res.append(stem);
    res.append(INIT_HOOK);
    res.append(ZIG_TEXT_3);
    res.append(stem);
    res.append(SHUTDOWN_HOOK);
    res.append(ZIG_TEXT_4);
    res.append(stem);
    res.append(GET_TOTAL_ITEMS_HOOK);
    res.append(ZIG_TEXT_5);
    res.append(stem);
    res.append(LOAD_ITEM_HOOK);
    res.append(ZIG_TEXT_6);
    res.append(stem);
    res.append(STORE_RESULT_HOOK);
    res.append(ZIG_TEXT_7);
    res.append(stem);
    res.append(PROCESS_ITEM_HOOK);
    res.append(ZIG_TEXT_8);
    res.append(stem);
    res.append(PROCESS_CHUNK_HOOK);
    res.append(ZIG_TEXT_9);
    res.append(stem);
    res.append(REDUCE_HOOK);
    res.append(ZIG_TEXT_10);
    res.append(stem);
    res.append(IS_MATCH_HOOK);
    res.append(ZIG_TEXT_11);
    res.append(stem);
    res.append(KEY_HASH_HOOK);
    res.append(ZIG_TEXT_12);
    res.append(stem);
    res.append(SERIALIZE_HOOK);
    res.append(ZIG_TEXT_13);
    res.append(stem);
    res.append(DESERIALIZE_HOOK);
    res.append(ZIG_TEXT_14);
    res.append(stem);
    res.append(FREE_HOOK);
    res.append(ZIG_TEXT_15);
    res.append(stem);
    res.append(CHECKPOINT_SAVE_HOOK);
    res.append(ZIG_TEXT_16);
    res.append(stem);
    res.append(CHECKPOINT_LOAD_HOOK);
    res.append(ZIG_TEXT_17);
    res.append(EXPORT_FN);
    res.append(C_INIT);
    res.append(ZIG_TEXT_18);
    res.append(stem);
    res.append(INIT_HOOK);
    res.append(ZIG_TEXT_19);
    res.append(EXPORT_FN);
    res.append(C_SHUTDOWN);
    res.append(ZIG_TEXT_20);
    res.append(stem);
    res.append(SHUTDOWN_HOOK);
    res.append(ZIG_TEXT_21);
    res.append(EXPORT_FN);
    res.append(C_GET_TOTAL_ITEMS);
    res.append(ZIG_TEXT_22);
    res.append(stem);
    res.append(GET_TOTAL_ITEMS_HOOK);
    res.append(ZIG_TEXT_23);
    res.append(EXPORT_FN);
    res.append(C_LOAD_ITEM);
    res.append(ZIG_TEXT_24);
    res.append(stem);
    res.append(LOAD_ITEM_HOOK);
    res.append(ZIG_TEXT_25);
    res.append(EXPORT_FN);
    res.append(C_STORE_RESULT);
    res.append(ZIG_TEXT_26);
    res.append(stem);
    res.append(STORE_RESULT_HOOK);
    res.append(ZIG_TEXT_27);
    res.append(EXPORT_FN);
    res.append(C_PROCESS_ITEM);
    res.append(ZIG_TEXT_28);
    res.append(stem);
    res.append(PROCESS_ITEM_HOOK);
    res.append(ZIG_TEXT_29);
    res.append(EXPORT_FN);
    res.append(C_PROCESS_CHUNK);
    res.append(ZIG_TEXT_30);
    res.append(stem);
    res.append(PROCESS_CHUNK_HOOK);
    res.append(ZIG_TEXT_31);
    res.append(EXPORT_FN);
    res.append(C_REDUCE);
    res.append(ZIG_TEXT_32);
    res.append(stem);
    res.append(REDUCE_HOOK);
    res.append(ZIG_TEXT_33);
    res.append(EXPORT_FN);
    res.append(C_IS_MATCH);
    res.append(ZIG_TEXT_34);
    res.append(stem);
    res.append(IS_MATCH_HOOK);
    res.append(ZIG_TEXT_35);
    res.append(EXPORT_FN);
    res.append(C_KEY_HASH);
    res.append(ZIG_TEXT_36);
    res.append(stem);
    res.append(KEY_HASH_HOOK);
    res.append(ZIG_TEXT_37);
    res.append(EXPORT_FN);
    res.append(C_SERIALIZE);
    res.append(ZIG_TEXT_38);
    res.append(stem);
    res.append(SERIALIZE_HOOK);
    res.append(ZIG_TEXT_39);
    res.append(EXPORT_FN);
    res.append(C_DESERIALIZE);
    res.append(ZIG_TEXT_40);
    res.append(stem);
    res.append(DESERIALIZE_HOOK);
    res.append(ZIG_TEXT_41);
    res.append(EXPORT_FN);
    res.append(C_FREE_ITEM);
    res.append(ZIG_TEXT_42);
    res.append(stem);
    res.append(FREE_HOOK);
    res.append(ZIG_TEXT_43);
    res.append(EXPORT_FN);
    res.append(C_CHECKPOINT_SAVE);
    res.append(ZIG_TEXT_44);
    res.append(stem);
    res.append(CHECKPOINT_SAVE_HOOK);
    res.append(ZIG_TEXT_45);
    res.append(EXPORT_FN);
    res.append(C_CHECKPOINT_LOAD);
    res.append(ZIG_TEXT_46);
    res.append(stem);
    res.append(CHECKPOINT_LOAD_HOOK);
    res.append(ZIG_TEXT_47);
    res
}

/// The C header that declares the interface the user code implements.
pub open spec fn c_header_text(name: Seq<char>, guard: Seq<char>, stem: Seq<char>) -> Seq<char> {
    HEADER_TEXT_1@
        + name
        + HEADER_TEXT_2@
        + guard
        + HEADER_TEXT_3@
        + guard
        + HEADER_TEXT_4@
        + stem
        + INIT_HOOK@
        + HEADER_TEXT_5@
        + stem
        + SHUTDOWN_HOOK@
        + HEADER_TEXT_6@
        + stem
        + GET_TOTAL_ITEMS_HOOK@
        + HEADER_TEXT_7@
        + stem
        + LOAD_ITEM_HOOK@
        + HEADER_TEXT_8@
        + stem
        + STORE_RESULT_HOOK@
        + HEADER_TEXT_9@
        + stem
        + PROCESS_ITEM_HOOK@
        + HEADER_TEXT_10@
        + stem
        + PROCESS_CHUNK_HOOK@
        + HEADER_TEXT_11@
        + stem
        + REDUCE_HOOK@
        + HEADER_TEXT_12@
        + stem
        + IS_MATCH_HOOK@
        + HEADER_TEXT_13@
        + stem
        + KEY_HASH_HOOK@
        + HEADER_TEXT_14@
        + stem
        + SERIALIZE_HOOK@
        + HEADER_TEXT_15@
        + stem
        + DESERIALIZE_HOOK@
        + HEADER_TEXT_16@
        + stem
        + FREE_HOOK@
        + HEADER_TEXT_17@
        + stem
        + CHECKPOINT_SAVE_HOOK@
        + HEADER_TEXT_18@
        + stem
        + CHECKPOINT_LOAD_HOOK@
        + HEADER_TEXT_19@
        + guard
        + HEADER_TEXT_20@
}

/// The C header that declares the interface the user code implements.
pub fn c_header(name: &str, guard: &str, stem: &str) -> (res: String)
    ensures
        res@ == c_header_text(name@, guard@, stem@),
{
    let mut res = String::new();
    res.append(HEADER_TEXT_1);
    res.append(name);
    res.append(HEADER_TEXT_2);
    res.append(guard);
    res.append(HEADER_TEXT_3);
    res.append(guard);
    res.append(HEADER_TEXT_4);
    res.append(stem);
    res.append(INIT_HOOK);
    res.append(HEADER_TEXT_5);
    res.append(stem);
    res.append(SHUTDOWN_HOOK);
    res.append(HEADER_TEXT_6);
    res.append(stem);
    res.append(GET_TOTAL_ITEMS_HOOK);
    res.append(HEADER_TEXT_7);
    res.append(stem);
    res.append(LOAD_ITEM_HOOK);
    res.append(HEADER_TEXT_8);
    res.append(stem);
    res.append(STORE_RESULT_HOOK);
    res.append(HEADER_TEXT_9);
    res.append(stem);
    res.append(PROCESS_ITEM_HOOK);
    res.append(HEADER_TEXT_10);
    res.append(stem);
    res.append(PROCESS_CHUNK_HOOK);
    res.append(HEADER_TEXT_11);
    res.append(stem);
    res.append(REDUCE_HOOK);
    res.append(HEADER_TEXT_12);
    res.append(stem);
    res.append(IS_MATCH_HOOK);
    res.append(HEADER_TEXT_13);
    res.append(stem);
    res.append(KEY_HASH_HOOK);
    res.append(HEADER_TEXT_14);
    res.append(stem);
    res.append(SERIALIZE_HOOK);
    res.append(HEADER_TEXT_15);
    res.append(stem);
    res.append(DESERIALIZE_HOOK);
    res.append(HEADER_TEXT_16);
    res.append(stem);
    res.append(FREE_HOOK);
    res.append(HEADER_TEXT_17);
    res.append(stem);
    res.append(CHECKPOINT_SAVE_HOOK);
    res.append(HEADER_TEXT_18);
    res.append(stem);
    res.append(CHECKPOINT_LOAD_HOOK);
    res.append(HEADER_TEXT_19);
    res.append(guard);
    res.append(HEADER_TEXT_20);
    res
}

/// The shell script that compiles the emitted artifacts.
pub open spec fn build_script_text(name: Seq<char>, stem: Seq<char>) -> Seq<char> {
    BUILD_SCRIPT_TEXT_1@
        + name
        + BUILD_SCRIPT_TEXT_2@
        + name
        + BUILD_SCRIPT_TEXT_3@
        + ZIG_DIR@
        + PATH_SEPARATOR@
        + stem
        + ZIG_FILE_SUFFIX@
        + BUILD_SCRIPT_TEXT_4@
        + stem
        + BUILD_SCRIPT_TEXT_5@
        + CHAPEL_DIR@
        + PATH_SEPARATOR@
        + stem
        + CHAPEL_FILE_SUFFIX@
        + BUILD_SCRIPT_TEXT_6@
        + stem
        + BUILD_SCRIPT_TEXT_7@
        + OUTPUT_FLAG@
        + stem
        + BINARY_SUFFIX@
        + BUILD_SCRIPT_TEXT_8@
        + stem
        + BUILD_SCRIPT_TEXT_9@
        + stem
        + BUILD_SCRIPT_TEXT_10@
}

/// The shell script that compiles the emitted artifacts.
pub fn build_script(name: &str, stem: &str) -> (res: String)
    ensures
        res@ == build_script_text(name@, stem@),
{
    let mut res = String::new();
    res.append(BUILD_SCRIPT_TEXT_1);
    res.append(name);
    res.append(BUILD_SCRIPT_TEXT_2);
    res.append(name);
    res.append(BUILD_SCRIPT_TEXT_3);
    res.append(ZIG_DIR);
    res.append(PATH_SEPARATOR);
    res.append(stem);
    res.append(ZIG_FILE_SUFFIX);
    res.append(BUILD_SCRIPT_TEXT_4);
    res.append(stem);
    res.append(BUILD_SCRIPT_TEXT_5);
    res.append(CHAPEL_DIR);
    res.append(PATH_SEPARATOR);
    res.append(stem);
    res.append(CHAPEL_FILE_SUFFIX);
    res.append(BUILD_SCRIPT_TEXT_6);
    res.append(stem);
    res.append(BUILD_SCRIPT_TEXT_7);
    res.append(OUTPUT_FLAG);
    res.append(stem);
    res.append(BINARY_SUFFIX);
    res.append(BUILD_SCRIPT_TEXT_8);
    res.append(stem);
    res.append(BUILD_SCRIPT_TEXT_9);
    res.append(stem);
    res.append(BUILD_SCRIPT_TEXT_10);
    res
}

} // verus!
