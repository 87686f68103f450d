//! Labels, build arguments and Dockerfile fragments shared by the runner.

use vstd::prelude::*;

verus! {

/// Label given to all containers and images created by the service.
pub const APP_LABEL: &'static str = "tinirun";

/// Label indicating the run id that created the container.
pub const ID_LABEL: &'static str = "tinirun-id";

/// Image label for one-off executions.
pub const EXEC_LABEL: &'static str = "tinirun-exec";

/// Image label for function images.
pub const FN_LABEL: &'static str = "tinirun-fn";

/// User and group for code execution containers.
pub const UID_GID: &'static str = "1000:1000";

/// Dockerfile instructions that set up the non-root user and home directory.
pub const SET_USER_AND_HOME_DIR: &'static str =
    "\nRUN mkdir -p /app && chown 1000:1000 /app\nUSER 1000:1000\nRUN mkdir -p /tmp/home\nWORKDIR /app\n";

/// Name of the build argument for the unique build id.
pub const BUILD_ID_ARG: &'static str = "TINIRUN_BUILD_ID";

/// Dockerfile instructions that set the unique build id argument and
/// environment variable, which also invalidates the build cache for the
/// steps that follow.
pub const SET_BUILD_ID: &'static str =
    "\nARG TINIRUN_BUILD_ID\nENV TINIRUN_BUILD_ID=$TINIRUN_BUILD_ID\n";

/// Number of events that the channel of one stream buffers.
pub const CHANNEL_BUFFER_SIZE: usize = 1024;

} // verus!
