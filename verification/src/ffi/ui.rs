//! The host's UI-object entry points.

use vstd::prelude::*;

use crate::ffi::{FfiConfig, Offset};

verus! {

/// Size in bytes of a host UI string object.
pub const UI_STR_SIZE: usize = 20;

/// Size in bytes of a host UI-object accessor.
pub const UI_OBJ_ACC_SIZE: usize = 20;

/// Where the host's UI string and UI-object accessor functions live.
#[derive(Clone, Copy, Debug, PartialEq, Eq)]
pub struct UiOffsets {
    pub ui_str_constructor: Offset,
    pub ui_str_destructor: Offset,
    pub ui_acc_constructor: Offset,
    pub ui_acc_destructor: Offset,
    pub ui_acc_set_pos: Offset,
    pub ui_acc_set_text: Offset,
    pub ui_acc_dup_child: Offset,
}

impl UiOffsets {
    /// What `load` makes of a configuration: all seven functions, or the
    /// host-side name of the first one that is not configured.
    pub open spec fn resolved(config: FfiConfig) -> Result<UiOffsets, &'static str> {
        if config.function("ui-str-con"@) is None {
            Err("UIStr()")
        } else if config.function("ui-str-des"@) is None {
            Err("~UIStr()")
        } else if config.function("ui-acc-con"@) is None {
            Err("UIObjectAcc()")
        } else if config.function("ui-acc-des"@) is None {
            Err("~UIObjectAcc()")
        } else if config.function("ui-acc-pos"@) is None {
            Err("UIObjectAcc::setPos")
        } else if config.function("ui-acc-text"@) is None {
            Err("UIObjectAcc::setText")
        } else if config.function("ui-acc-dup-child"@) is None {
            Err("UIObjectAcc::duplicateChild")
        } else {
            Ok(
                UiOffsets {
                    ui_str_constructor: config.function("ui-str-con"@)->0,
                    ui_str_destructor: config.function("ui-str-des"@)->0,
                    ui_acc_constructor: config.function("ui-acc-con"@)->0,
                    ui_acc_destructor: config.function("ui-acc-des"@)->0,
                    ui_acc_set_pos: config.function("ui-acc-pos"@)->0,
                    ui_acc_set_text: config.function("ui-acc-text"@)->0,
                    ui_acc_dup_child: config.function("ui-acc-dup-child"@)->0,
                },
            )
        }
    }

    /// Reads the UI functions from `config`. All of them are needed; the
    /// error names the first that is missing.
    pub fn load(config: &FfiConfig) -> (r: Result<UiOffsets, &'static str>)
        ensures
            r == UiOffsets::resolved(*config),
    {
        let ui_str_constructor = match config.get_function("ui-str-con") {
            Some(o) => o,
            None => { return Err("UIStr()"); },
        };
        let ui_str_destructor = match config.get_function("ui-str-des") {
            Some(o) => o,
            None => { return Err("~UIStr()"); },
        };
        let ui_acc_constructor = match config.get_function("ui-acc-con") {
            Some(o) => o,
            None => { return Err("UIObjectAcc()"); },
        };
        let ui_acc_destructor = match config.get_function("ui-acc-des") {
            Some(o) => o,
            None => { return Err("~UIObjectAcc()"); },
        };
        let ui_acc_set_pos = match config.get_function("ui-acc-pos") {
            Some(o) => o,
            None => { return Err("UIObjectAcc::setPos"); },
        };
        let ui_acc_set_text = match config.get_function("ui-acc-text") {
            Some(o) => o,
            None => { return Err("UIObjectAcc::setText"); },
        };
        let ui_acc_dup_child = match config.get_function("ui-acc-dup-child") {
            Some(o) => o,
            None => { return Err("UIObjectAcc::duplicateChild"); },
        };
        Ok(
            UiOffsets {
                ui_str_constructor,
                ui_str_destructor,
                ui_acc_constructor,
                ui_acc_destructor,
                ui_acc_set_pos,
                ui_acc_set_text,
                ui_acc_dup_child,
            },
        )
    }
}

} // verus!
