//! Starting a watch session: every target of the registry is registered
//! with the platform's facility, in registry order, and the first failure
//! aborts the start.
//!
//! The facility itself stays outside this library. [`start`] takes the call
//! that registers one watch as a function and decides what is asked of it,
//! in which order, and what the start comes to.

use crate::error::{WatchError, WatchErrorView};
use crate::registry::{target_views, PathRegistry, WatchTargetView};
use vstd::prelude::*;

verus! {

/// How far below a watched path the watch reaches.
#[derive(Clone, Copy, Debug, PartialEq, Eq, Structural)]
pub enum WatchMode {
    /// The path and everything below it.
    Recursive,
    /// The path alone; for a directory, its direct entries.
    NonRecursive,
}

/// The mode for a target's flag.
pub open spec fn mode_spec(recursive: bool) -> WatchMode {
    if recursive {
        WatchMode::Recursive
    } else {
        WatchMode::NonRecursive
    }
}

/// The mode for a target's flag: recursive for `true`, non-recursive for
/// `false`.
pub fn mode_for(recursive: bool) -> (mode: WatchMode)
    ensures
        mode == mode_spec(recursive),
{
    if recursive {
        WatchMode::Recursive
    } else {
        WatchMode::NonRecursive
    }
}

/// The flag and the mode stand one for one: two flags with the same mode
/// are the same flag, and each mode is the mode of a flag.
pub proof fn lemma_mode_is_one_to_one(a: bool, b: bool, mode: WatchMode)
    ensures
        mode_spec(a) == mode_spec(b) ==> a == b,
        mode == mode_spec(mode == WatchMode::Recursive),
{
}

/// Decides on the facility's answer to one registration. A refusal, such
/// as a path that does not exist or may not be read, becomes a platform
/// error that carries the facility's message.
pub fn registration_result(reply: Result<(), String>) -> (result: Result<(), WatchError>)
    ensures
        match reply {
            Ok(()) => result is Ok,
            Err(message) => result matches Err(error) && error@ == WatchErrorView::Platform(
                message@,
            ),
        },
{
    match reply {
        Ok(()) => Ok(()),
        Err(message) => Err(WatchError::Platform(message)),
    }
}

/// True if `register`, asked to watch `target` in the mode for its flag,
/// may answer `reply`.
pub open spec fn answers<F: Fn(&str, WatchMode) -> Result<(), String>>(
    register: F,
    target: WatchTargetView,
    reply: Result<(), String>,
) -> bool {
    exists|path: &str|
        path@ == target.path && call_ensures(
            register,
            (path, mode_spec(target.recursive)),
            reply,
        )
}

/// True if `register` accepted each of the first `count` targets.
pub open spec fn accepted<F: Fn(&str, WatchMode) -> Result<(), String>>(
    register: F,
    targets: Seq<WatchTargetView>,
    count: int,
) -> bool {
    forall|i: int| 0 <= i < count ==> answers(register, #[trigger] targets[i], Ok::<(), String>(()))
}

/// True if `register` accepted the targets before the `k`-th and refused
/// the `k`-th with `message`.
pub open spec fn refused_at<F: Fn(&str, WatchMode) -> Result<(), String>>(
    register: F,
    targets: Seq<WatchTargetView>,
    k: int,
    message: String,
) -> bool {
    &&& 0 <= k < targets.len()
    &&& accepted(register, targets, k)
    &&& answers(register, targets[k], Err::<(), String>(message))
}

/// Starts a session on the targets of `registry`.
///
/// `register` is asked once for each target, in registry order, with the
/// target's path and the mode for its flag. The start succeeds if every
/// registration did. At the first refusal it stops, asks for nothing more,
/// and returns the refusal as a platform error.
pub fn start<F>(registry: &PathRegistry, register: F) -> (started: Result<(), WatchError>) where
    F: Fn(&str, WatchMode) -> Result<(), String>,

    requires
        forall|i: int, path: &str|
            #![trigger registry@[i], path@]
            0 <= i < registry@.len() && path@ == registry@[i].path ==> call_requires(
                register,
                (path, mode_spec(registry@[i].recursive)),
            ),
    ensures
        match started {
            Ok(()) => accepted(register, registry@, registry@.len() as int),
            Err(error) => exists|k: int, message: String| #[trigger]
                refused_at(register, registry@, k, message) && error@ == WatchErrorView::Platform(
                    message@,
                ),
        },
{
    let targets = registry.entries();
    let mut i: usize = 0;
    while i < targets.len()
        invariant
            i <= targets.len(),
            target_views(targets@) == registry@,
            forall|i: int, path: &str|
                #![trigger registry@[i], path@]
                0 <= i < registry@.len() && path@ == registry@[i].path ==> call_requires(
                    register,
                    (path, mode_spec(registry@[i].recursive)),
                ),
            accepted(register, registry@, i as int),
        decreases targets.len() - i,
    {
        let target = &targets[i];
        let path = target.path.as_str();
        assert(registry@[i as int] == target@ && path@ == registry@[i as int].path);
        let reply = register(path, mode_for(target.recursive));
        assert(answers(register, registry@[i as int], reply));
        assert(reply is Ok ==> reply == Ok::<(), String>(())) by {
            if reply is Ok {
                assert(reply->Ok_0 == ());
            }
        }
        let ghost refusal = reply;
        if let Err(error) = registration_result(reply) {
            assert(refused_at(register, registry@, i as int, refusal->Err_0));
            return Err(error);
        }
        i += 1;
    }
    Ok(())
}

} // verus!
