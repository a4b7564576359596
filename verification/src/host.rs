//! The functions that a script calls to get a canvas and to capture it.
//!
//! The interpreter, the file system and the loader of canvas files stand
//! outside; these functions decide what a call comes to, given what those
//! found.

use crate::animator::{Animator, AnimatorView};
use crate::buffer::{Buffer, BufferType, CanvasView, Size};
use crate::caret::Caret;
use crate::error::ScriptError;
use crate::lua_buffer::{CapabilityView, LuaBuffer};
use crate::monitor::MonitorGlobals;
use vstd::prelude::*;

verus! {

/// `new_buffer(width, height)`: a canvas object on a blank canvas of that
/// size, in the encoding of every new canvas.
pub fn new_buffer(width: i32, height: i32) -> (object: LuaBuffer)
    ensures
        object@ == (CapabilityView {
            cur_layer: 0,
            caret: Caret::initial(),
            buffer: CanvasView::blank(Size { width, height }, BufferType::initial()),
        }),
{
    LuaBuffer::create(width, height)
}

/// The directory under which `load_buffer` looks for a file: the base
/// directory `parent`, if there is one and the file was named by a relative
/// path; none for a file named in full, which is taken as it is.
pub fn base_directory(is_relative: bool, parent: Option<String>) -> (base: Option<String>)
    ensures
        base == if is_relative {
            parent
        } else {
            None::<String>
        },
{
    if is_relative {
        parent
    } else {
        None
    }
}

/// `load_buffer(file)`, once the file was looked for and read: `exists`
/// tells whether the file was found, and `loaded` holds the canvas that was
/// read from it, if it could be read. A file that is not there fails with
/// `NotFound`, one that is no canvas with `LoadFailed`; both name the file as
/// the script named it.
pub fn load_buffer(file: String, exists: bool, loaded: Option<Buffer>) -> (res: Result<
    LuaBuffer,
    ScriptError,
>)
    ensures
        !exists ==> res is Err && res->Err_0 == (ScriptError::NotFound { file }),
        exists && loaded is None ==> res is Err && res->Err_0 == (ScriptError::LoadFailed { file }),
        exists && loaded is Some ==> res is Ok && res->Ok_0@ == (CapabilityView {
            cur_layer: 0,
            caret: Caret::initial(),
            buffer: loaded->Some_0@,
        }),
{
    if !exists {
        return Err(ScriptError::NotFound { file });
    }
    match loaded {
        Some(buffer) => Ok(LuaBuffer::new(buffer)),
        None => Err(ScriptError::LoadFailed { file }),
    }
}

/// `next_frame(value)`: captures the canvas of `value`, if it is a canvas
/// object, with the monitor parameters of `globals`. Any other value, for
/// which `value` is `None` and `found` tells what it was, fails with
/// `TypeMismatch` and changes nothing.
pub fn next_frame(
    animator: &mut Animator,
    value: Option<&LuaBuffer>,
    found: String,
    globals: &MonitorGlobals,
) -> (res: Result<(), ScriptError>)
    ensures
        value is None ==> res is Err && res->Err_0 == (ScriptError::TypeMismatch { found })
            && final(animator)@ == old(animator)@,
        value is Some && old(animator)@.has_room() ==> res is Ok && final(animator)@
            == (AnimatorView {
            current_monitor_settings: old(animator)@.current_monitor_settings.with_globals(
                *globals,
            ),
            ..old(animator)@
        }).captured(value->Some_0@.buffer),
        value is Some && !old(animator)@.has_room() ==> res == Err::<(), ScriptError>(
            ScriptError::FrameLimitExceeded,
        ) && final(animator)@ == (AnimatorView {
            current_monitor_settings: old(animator)@.current_monitor_settings.with_globals(
                *globals,
            ),
            ..old(animator)@
        }),
{
    match value {
        Some(object) => animator.capture(&object.buffer, globals),
        None => Err(ScriptError::TypeMismatch { found }),
    }
}

} // verus!
