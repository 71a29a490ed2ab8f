//! Hook action selectors, matching the `BaseACPHook` routing logic.
//!
//! These selectors are the `msg.sig` values the core contract passes to
//! `IACPHook.beforeAction` / `IACPHook.afterAction`. Each is the first four
//! bytes of the Keccak-256 hash of the core function's Solidity signature.
//!
//! | Action | `data` encoding |
//! |---|---|
//! | `setProvider` | `abi.encode(address provider, bytes optParams)` |
//! | `setBudget` | `abi.encode(uint256 amount, bytes optParams)` |
//! | `fund` | `optParams` (raw bytes) |
//! | `submit` | `abi.encode(bytes32 deliverable, bytes optParams)` |
//! | `complete` | `abi.encode(bytes32 reason, bytes optParams)` |
//! | `reject` | `abi.encode(bytes32 reason, bytes optParams)` |

use vstd::prelude::*;

verus! {

/// `setProvider(uint256,address,bytes)` selector.
pub const SEL_SET_PROVIDER: [u8; 4] = [0xc9u8, 0xa8u8, 0x4bu8, 0xb9u8];

/// `setBudget(uint256,uint256,bytes)` selector.
pub const SEL_SET_BUDGET: [u8; 4] = [0xddu8, 0x4au8, 0xe9u8, 0xd4u8];

/// `fund(uint256,uint256,bytes)` selector.
pub const SEL_FUND: [u8; 4] = [0xd2u8, 0xe1u8, 0x3fu8, 0x50u8];

/// `submit(uint256,bytes32,bytes)` selector.
pub const SEL_SUBMIT: [u8; 4] = [0x9eu8, 0x63u8, 0x79u8, 0x8du8];

/// `complete(uint256,bytes32,bytes)` selector.
pub const SEL_COMPLETE: [u8; 4] = [0xd7u8, 0x5bu8, 0xbdu8, 0xf3u8];

/// `reject(uint256,bytes32,bytes)` selector.
pub const SEL_REJECT: [u8; 4] = [0x41u8, 0xddu8, 0x26u8, 0xf5u8];

} // verus!
