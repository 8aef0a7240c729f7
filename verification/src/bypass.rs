//! The protection bypass.
//!
//! The host process runs an anti-tamper layer that overwrites the entry of the
//! operating system's protection-change primitive, so that every change of
//! page permissions passes through its monitor. Before any patch attempt the
//! entry is put back into its unmonitored form.
//!
//! This module works on a snapshot of the entry window, the first
//! [`PROLOGUE_LEN`] bytes of the primitive. The host reads the window, calls
//! [`ensure_unprotected`] on it and, only when told that the window was
//! rewritten, writes it back: it grants read, write and execute permission
//! over the window, copies the bytes, and restores the permission that was
//! there before. A failure to change the permission is not reported; the patch
//! attempt that follows fails on its own if the primitive is still unusable.

use vstd::prelude::*;

verus! {

/// The number of bytes in the entry window.
pub const PROLOGUE_LEN: usize = 7;

/// The first byte of the primitive's entry when nothing intercepts it.
pub const ENTRY_OPCODE: u8 = 0x4C;

/// The entry instructions of the unmonitored primitive:
/// `mov r10, rcx` followed by the opening of `mov eax, 0x50`.
pub open spec fn canonical_prologue() -> Seq<u8> {
    seq![0x4Cu8, 0x8Bu8, 0xD1u8, 0xB8u8, 0x50u8, 0x00u8, 0x00u8]
}

/// Whether the window shows an entry that nothing intercepts. Only the first
/// byte is inspected.
pub open spec fn is_unprotected(window: Seq<u8>) -> bool {
    window.len() > 0 && window[0] == ENTRY_OPCODE
}

/// The window as the bypass leaves it: untouched when nothing intercepts the
/// entry, the canonical prologue otherwise.
pub open spec fn neutralized(window: Seq<u8>) -> Seq<u8> {
    if is_unprotected(window) {
        window
    } else {
        canonical_prologue()
    }
}

/// The canonical prologue as bytes.
pub fn prologue() -> (bytes: [u8; PROLOGUE_LEN])
    ensures
        bytes@ == canonical_prologue(),
{
    let bytes: [u8; PROLOGUE_LEN] = [0x4C, 0x8B, 0xD1, 0xB8, 0x50, 0x00, 0x00];
    assert(bytes@ =~= canonical_prologue());
    bytes
}

/// Tells from the first byte of the entry whether the interception is in place.
pub fn is_intercepted(first_byte: u8) -> (intercepted: bool)
    ensures
        intercepted == (first_byte != ENTRY_OPCODE),
{
    first_byte != ENTRY_OPCODE
}

/// Puts the entry window into its unmonitored form.
///
/// When the first byte already is the expected one, the window is left as it
/// is and `false` is returned: nothing is to be written. Otherwise the whole
/// window is replaced by the canonical prologue and `true` is returned.
pub fn ensure_unprotected(window: &mut [u8; PROLOGUE_LEN]) -> (rewritten: bool)
    ensures
        rewritten == !is_unprotected(old(window)@),
        final(window)@ == neutralized(old(window)@),
        is_unprotected(final(window)@),
{
    if is_intercepted(window[0]) {
        *window = prologue();
        true
    } else {
        false
    }
}

/// The bypass is idempotent: applied to a window that it has already
/// treated, it finds nothing to rewrite and leaves every byte in place.
pub proof fn lemma_bypass_idempotent(window: Seq<u8>)
    ensures
        is_unprotected(neutralized(window)),
        neutralized(neutralized(window)) == neutralized(window),
{
}

} // verus!
