//! Offset resolution, hook planning and a retained widget tree for an
//! in-process diagnostic overlay.
//!
//! The crate decides *what* to patch and *what* to draw; carrying those
//! decisions out against a live process is left to the embedding program.

use vstd::prelude::*;

use crate::config::{BladeCreateDefault, RuntimeConfig};
use crate::ffi::hooks::Offsets;
use crate::ui::text::TextRenderer;

pub mod config;
pub mod ffi;
pub mod input;
pub mod ui;

verus! {

/// The address of read-only memory in the host process.
#[derive(Clone, Copy, Debug, PartialEq, Eq)]
pub struct StaticPtr(pub u64);

impl StaticPtr {
    /// The address itself.
    pub open spec fn address(self) -> u64 {
        self.0
    }

    /// Marks `address` as one of read-only memory.
    pub fn copy_of(address: u64) -> (ptr: StaticPtr)
        ensures
            ptr.address() == address,
    {
        StaticPtr(address)
    }

    /// The address `addr` bytes further on, if there is such an address.
    pub fn offset(&self, addr: isize) -> (r: Option<u64>)
        ensures
            r == (if 0 <= self.address() + addr <= u64::MAX {
                Some((self.address() + addr) as u64)
            } else {
                None
            }),
    {
        if addr >= 0 {
            self.0.checked_add(addr as u64)
        } else if addr == isize::MIN {
            self.0.checked_sub(isize::MAX as u64 + 1)
        } else {
            self.0.checked_sub((-addr) as u64)
        }
    }

    /// The address itself.
    pub fn inner(&self) -> (address: u64)
        ensures
            address == self.address(),
    {
        self.0
    }
}

/// What the framework knows of the host process, and the state that its
/// hooks share.
#[derive(Clone, Copy, Debug, PartialEq, Eq)]
pub struct PlatformData {
    /// The host functions that draw text.
    pub text_renderer: TextRenderer,
    /// The start of the code section.
    pub text_ptr: StaticPtr,
    /// Whether the overlay is shown.
    pub ui_visible: bool,
    /// Frames since an input was last acted on.
    pub no_input_frames: u32,
    /// The offsets and registers that the hooks work with.
    pub ffi_offsets: Offsets,
    /// The settings.
    pub config: RuntimeConfig,
}

impl PlatformData {
    /// The address at which the code section starts.
    pub open spec fn text_base(self) -> u64 {
        self.text_ptr.address()
    }

    /// The state before the first frame: the overlay hidden, no frame
    /// counted, every setting at its default.
    pub fn new(text_renderer: TextRenderer, text_ptr: StaticPtr, ffi_offsets: Offsets) -> (platform:
        PlatformData)
        ensures
            platform == (PlatformData {
                text_renderer,
                text_ptr,
                ui_visible: false,
                no_input_frames: 0,
                ffi_offsets,
                config: RuntimeConfig {
                    ui_visible: true,
                    blade_create_enable_save: true,
                    return_title: true,
                    infinite_flutterheart: true,
                    chain_attack_rate_fix: true,
                    blade_create_default_sel: BladeCreateDefault::Best,
                },
            }),
    {
        PlatformData {
            text_renderer,
            text_ptr,
            ui_visible: false,
            no_input_frames: 0,
            ffi_offsets,
            config: RuntimeConfig::default(),
        }
    }

    /// The start of the code section.
    pub fn text_ptr(&self) -> (ptr: StaticPtr)
        ensures
            ptr == self.text_ptr,
    {
        self.text_ptr
    }
}

} // verus!
