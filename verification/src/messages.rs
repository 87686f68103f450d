//! The wording of the status lines and failures that a pipeline sends to
//! the client.

use vstd::prelude::*;
use vstd::string::*;
use crate::text::concat3;

verus! {

/// Announces the check of the base image.
pub open spec fn msg_checking_image(image: Seq<char>) -> Seq<char> {
    "Checking base image '"@ + image + "'..."@
}

/// Announces the check of the base image.
pub fn checking_image(image: &str) -> (s: String)
    ensures
        s@ == msg_checking_image(image@),
{
    concat3("Checking base image '", image, "'...")
}

/// Announces the pull of the base image.
pub open spec fn msg_pulling_image(image: Seq<char>) -> Seq<char> {
    "Pulling base image '"@ + image + "'..."@
}

/// Announces the pull of the base image.
pub fn pulling_image(image: &str) -> (s: String)
    ensures
        s@ == msg_pulling_image(image@),
{
    concat3("Pulling base image '", image, "'...")
}

/// Announces the build of an image.
pub open spec fn msg_building_image(tag: Seq<char>) -> Seq<char> {
    "Building image '"@ + tag + "'..."@
}

/// Announces the build of an image.
pub fn building_image(tag: &str) -> (s: String)
    ensures
        s@ == msg_building_image(tag@),
{
    concat3("Building image '", tag, "'...")
}

/// Reports the id of the image that was built.
pub open spec fn msg_built_image(tag: Seq<char>, id: Seq<char>) -> Seq<char> {
    "Built image '"@ + tag + "' with ID "@ + id
}

/// Reports the id of the image that was built.
pub fn built_image(tag: &str, id: &str) -> (s: String)
    ensures
        s@ == msg_built_image(tag@, id@),
{
    let mut s = concat3("Built image '", tag, "' with ID ");
    s.append(id);
    s
}

/// The message of a build that yielded no image.
pub open spec fn msg_build_failed(tag: Seq<char>) -> Seq<char> {
    "Failed to build image '"@ + tag + "'"@
}

/// The message of a build that yielded no image.
pub fn build_failed(tag: &str) -> (s: String)
    ensures
        s@ == msg_build_failed(tag@),
{
    concat3("Failed to build image '", tag, "'")
}

/// Announces the start of the container with its command.
pub open spec fn msg_starting_container(command: Seq<char>) -> Seq<char> {
    "Starting container with '"@ + command + "'..."@
}

/// Announces the start of the container with its command.
pub fn starting_container(command: &str) -> (s: String)
    ensures
        s@ == msg_starting_container(command@),
{
    concat3("Starting container with '", command, "'...")
}

/// What precedes the cause when the image check of a one-off execution fails.
pub open spec fn msg_check_failed() -> Seq<char> {
    "Unexpected error when checking image: "@
}

/// What precedes the cause when the pull of a one-off execution fails.
pub open spec fn msg_pull_failed() -> Seq<char> {
    "Error pulling image: "@
}

/// What precedes the cause when the base image of a function cannot be had.
pub open spec fn msg_base_image_failed() -> Seq<char> {
    "Error while checking/pulling base image: "@
}

/// What precedes the cause when the container cannot be created.
pub open spec fn msg_create_failed(run_id: Seq<char>) -> Seq<char> {
    "Failed to create container '"@ + run_id + "': "@
}

/// What precedes the cause when the container cannot be created.
pub fn create_failed(run_id: &str) -> (s: String)
    ensures
        s@ == msg_create_failed(run_id@),
{
    concat3("Failed to create container '", run_id, "': ")
}

/// What precedes the cause when the container cannot be attached to.
pub open spec fn msg_attach_failed() -> Seq<char> {
    "Failed to attach to container: "@
}

/// What precedes the cause when the container cannot be started.
pub open spec fn msg_start_failed(run_id: Seq<char>) -> Seq<char> {
    "Failed to start container '"@ + run_id + "': "@
}

/// What precedes the cause when the container cannot be started.
pub fn start_failed(run_id: &str) -> (s: String)
    ensures
        s@ == msg_start_failed(run_id@),
{
    concat3("Failed to start container '", run_id, "': ")
}

/// The message for an event that the pipeline did not ask for.
pub open spec fn msg_unexpected_event() -> Seq<char> {
    "Unexpected engine event"@
}

/// Announces the writing of the payload.
pub open spec fn msg_writing_input() -> Seq<char> {
    "Writing input to container"@
}

/// Notes that the payload could not be written.
pub open spec fn msg_write_failed(err: Seq<char>) -> Seq<char> {
    "Failed to write input: "@ + err
}

/// Notes that the input could not be shut down.
pub open spec fn msg_flush_failed(err: Seq<char>) -> Seq<char> {
    "Failed to flush input: "@ + err
}

/// The message for a function whose image is absent.
pub open spec fn msg_image_missing(fn_name: Seq<char>) -> Seq<char> {
    "Image missing for '"@ + fn_name + "'. Please rebuild the function."@
}

/// The message for a function whose image is absent.
pub fn image_missing(fn_name: &str) -> (s: String)
    ensures
        s@ == msg_image_missing(fn_name@),
{
    concat3("Image missing for '", fn_name, "'. Please rebuild the function.")
}

} // verus!
