//! Keyboard shortcut decisions: which zoom action a key event asks for, and
//! what it does to the zoom level, held in tenths of the display factor.

use vstd::prelude::*;

verus! {

/// The zoom level that `ZoomReset` returns to: one, in tenths.
pub const ZOOM_RESET_TENTHS: i64 = 10;

/// What a zoom shortcut does.
#[derive(Clone, Copy, Debug, PartialEq, Eq, Structural)]
pub enum ZoomAction {
    ZoomIn,
    ZoomOut,
    ZoomReset,
}

/// The action a key event asks for: with the platform's command modifier
/// held, `=` zooms in, `-` zooms out, `0` resets; anything else does nothing.
pub open spec fn spec_zoom_action(ctrl_or_command: bool, key: Seq<char>) -> Option<ZoomAction> {
    if !ctrl_or_command {
        None
    } else if key == "="@ {
        Some(ZoomAction::ZoomIn)
    } else if key == "-"@ {
        Some(ZoomAction::ZoomOut)
    } else if key == "0"@ {
        Some(ZoomAction::ZoomReset)
    } else {
        None
    }
}

/// Decides what a key event does, from the modifier flag and the key value.
pub fn zoom_action(ctrl_or_command: bool, key: &str) -> (r: Option<ZoomAction>)
    ensures
        r == spec_zoom_action(ctrl_or_command, key@),
{
    proof {
        reveal_strlit("=");
        reveal_strlit("-");
        reveal_strlit("0");
    }
    if !ctrl_or_command {
        return None;
    }
    let n = key.unicode_len();
    if n != 1 {
        return None;
    }
    let c = key.get_char(0);
    if c == '=' {
        proof {
            assert(key@ =~= "="@);
        }
        Some(ZoomAction::ZoomIn)
    } else if c == '-' {
        proof {
            assert(key@ =~= "-"@);
        }
        Some(ZoomAction::ZoomOut)
    } else if c == '0' {
        proof {
            assert(key@ =~= "0"@);
        }
        Some(ZoomAction::ZoomReset)
    } else {
        proof {
            assert(key@[0] != "="@[0] && key@[0] != "-"@[0] && key@[0] != "0"@[0]);
        }
        None
    }
}

/// The zoom level after an action: in and out step by one tenth, reset
/// returns to one; a step that would leave the numeric range is dropped.
pub fn apply_zoom(level_tenths: i64, action: ZoomAction) -> (r: i64)
    ensures
        action == ZoomAction::ZoomIn ==> r == (if level_tenths < i64::MAX {
            level_tenths + 1
        } else {
            level_tenths as int
        }),
        action == ZoomAction::ZoomOut ==> r == (if level_tenths > i64::MIN {
            level_tenths - 1
        } else {
            level_tenths as int
        }),
        action == ZoomAction::ZoomReset ==> r == ZOOM_RESET_TENTHS,
{
    match action {
        ZoomAction::ZoomIn => {
            if level_tenths < i64::MAX {
                level_tenths + 1
            } else {
                level_tenths
            }
        },
        ZoomAction::ZoomOut => {
            if level_tenths > i64::MIN {
                level_tenths - 1
            } else {
                level_tenths
            }
        },
        ZoomAction::ZoomReset => ZOOM_RESET_TENTHS,
    }
}

} // verus!
