//! The reconciler: the cleanup after a run, the periodic pruning of
//! containers and images, and the synchronisation of function statuses with
//! the images that the engine still holds.

use vstd::prelude::*;
use vstd::string::*;
use crate::constants::{APP_LABEL, EXEC_LABEL, FN_LABEL};
use crate::store::{FunctionInfo, FunctionStatus, StatusView};
use crate::text::{concat2, decimal, ends_with, has_suffix, same_text, texts, u64_to_decimal};

verus! {

/// The filters of an engine query: each key with its values.
pub type Filters = Vec<(String, Vec<String>)>;

/// The texts of a list of filters.
pub open spec fn filter_texts(f: Seq<(String, Vec<String>)>) -> Seq<(Seq<char>, Seq<Seq<char>>)> {
    f.map_values(|e: (String, Vec<String>)| (e.0@, texts(e.1@)))
}

/// A call on the engine that the reconciler asks for.
#[derive(Debug, Clone, PartialEq, Eq)]
pub enum EngineCommand {
    StopContainer { name: String },
    RemoveContainer { name: String, force: bool },
    PruneContainers { filters: Filters },
    PruneImages { filters: Filters },
    ListImages { filters: Filters },
    RemoveImage { id: String },
}

/// Model of an `EngineCommand`.
pub enum CommandView {
    StopContainer { name: Seq<char> },
    RemoveContainer { name: Seq<char>, force: bool },
    PruneContainers { filters: Seq<(Seq<char>, Seq<Seq<char>>)> },
    PruneImages { filters: Seq<(Seq<char>, Seq<Seq<char>>)> },
    ListImages { filters: Seq<(Seq<char>, Seq<Seq<char>>)> },
    RemoveImage { id: Seq<char> },
}

impl View for EngineCommand {
    type V = CommandView;

    open spec fn view(&self) -> CommandView {
        match self {
            EngineCommand::StopContainer { name } => CommandView::StopContainer { name: name@ },
            EngineCommand::RemoveContainer { name, force } => CommandView::RemoveContainer {
                name: name@,
                force: *force,
            },
            EngineCommand::PruneContainers { filters } => CommandView::PruneContainers {
                filters: filter_texts(filters@),
            },
            EngineCommand::PruneImages { filters } => CommandView::PruneImages {
                filters: filter_texts(filters@),
            },
            EngineCommand::ListImages { filters } => CommandView::ListImages {
                filters: filter_texts(filters@),
            },
            EngineCommand::RemoveImage { id } => CommandView::RemoveImage { id: id@ },
        }
    }
}

/// The models of a list of commands.
pub open spec fn command_views(c: Seq<EngineCommand>) -> Seq<CommandView> {
    c.map_values(|x: EngineCommand| x@)
}

/// The cleanup after a run: stop the container, then remove it by force.
/// Both are best effort; a failure of either is not surfaced.
pub fn run_cleanup(run_id: &str) -> (calls: Vec<EngineCommand>)
    ensures
        command_views(calls@) == seq![
            CommandView::StopContainer { name: run_id@ },
            CommandView::RemoveContainer { name: run_id@, force: true },
        ],
{
    let mut calls: Vec<EngineCommand> = Vec::new();
    calls.push(EngineCommand::StopContainer { name: run_id.to_owned() });
    calls.push(EngineCommand::RemoveContainer { name: run_id.to_owned(), force: true });
    assert(command_views(calls@) =~= seq![
        CommandView::StopContainer { name: run_id@ },
        CommandView::RemoveContainer { name: run_id@, force: true },
    ]);
    calls
}

/// The age filter of a cleanup: the period in seconds, followed by `s`.
pub open spec fn until_value(period_secs: u64) -> Seq<char> {
    decimal(period_secs as nat) + "s"@
}

/// Filters for pruning stopped containers of the service.
pub open spec fn container_prune_filters(period_secs: u64) -> Seq<(Seq<char>, Seq<Seq<char>>)> {
    seq![("label"@, seq![APP_LABEL@]), ("until"@, seq![until_value(period_secs)])]
}

/// Filters for pruning the images of one-off executions.
pub open spec fn image_prune_filters(period_secs: u64) -> Seq<(Seq<char>, Seq<Seq<char>>)> {
    seq![
        ("label"@, seq![EXEC_LABEL@]),
        ("until"@, seq![until_value(period_secs)]),
        ("dangling"@, seq!["false"@]),
    ]
}

/// Filters for listing function images that are old enough to go.
pub open spec fn function_image_filters(period_secs: u64) -> Seq<(Seq<char>, Seq<Seq<char>>)> {
    seq![("label"@, seq![FN_LABEL@]), ("until"@, seq![until_value(period_secs)])]
}

/// Filters for listing all function images.
pub open spec fn all_function_image_filters() -> Seq<(Seq<char>, Seq<Seq<char>>)> {
    seq![("label"@, seq![FN_LABEL@])]
}

fn filter(key: &str, value: String) -> (f: (String, Vec<String>))
    ensures
        f.0@ == key@,
        texts(f.1@) == seq![value@],
{
    let mut values: Vec<String> = Vec::new();
    values.push(value);
    assert(texts(values@) =~= seq![value@]);
    (key.to_owned(), values)
}

fn label_and_until(label: &str, period_secs: u64) -> (f: Filters)
    ensures
        filter_texts(f@) == seq![
            ("label"@, seq![label@]),
            ("until"@, seq![until_value(period_secs)]),
        ],
{
    let mut f: Filters = Vec::new();
    f.push(filter("label", label.to_owned()));
    f.push(filter("until", concat2(u64_to_decimal(period_secs).as_str(), "s")));
    assert(filter_texts(f@) =~= seq![
        ("label"@, seq![label@]),
        ("until"@, seq![until_value(period_secs)]),
    ]);
    f
}

/// An image as the engine lists it.
#[derive(Debug, Clone, PartialEq, Eq)]
pub struct ImageSummary {
    pub id: String,
    pub repo_tags: Vec<String>,
}

/// An image is superseded when none of its tags ends in `:latest`.
pub open spec fn is_superseded(image: ImageSummary) -> bool {
    forall|i: int|
        0 <= i < image.repo_tags@.len() ==> !has_suffix((#[trigger] image.repo_tags@[i])@, ":latest"@)
}

/// The ids of the superseded images among the first `upto` of `images`, in
/// order.
pub open spec fn superseded_ids(images: Seq<ImageSummary>, upto: int) -> Seq<Seq<char>>
    decreases upto,
{
    if upto <= 0 {
        Seq::empty()
    } else if is_superseded(images[upto - 1]) {
        superseded_ids(images, upto - 1).push(images[upto - 1].id@)
    } else {
        superseded_ids(images, upto - 1)
    }
}

fn superseded(image: &ImageSummary) -> (b: bool)
    ensures
        b == is_superseded(*image),
{
    let mut i: usize = 0;
    while i < image.repo_tags.len()
        invariant
            i <= image.repo_tags.len(),
            forall|j: int| 0 <= j < i ==> !has_suffix((#[trigger] image.repo_tags@[j])@, ":latest"@),
        decreases image.repo_tags.len() - i,
    {
        if ends_with(image.repo_tags[i].as_str(), ":latest") {
            return false;
        }
        i += 1;
    }
    true
}

/// Picks the function images to remove: those without a `:latest` tag. The
/// current image of every function stays; superseded versions go.
pub fn superseded_images(images: &Vec<ImageSummary>) -> (ids: Vec<String>)
    ensures
        texts(ids@) == superseded_ids(images@, images@.len() as int),
{
    let mut ids: Vec<String> = Vec::new();
    let mut i: usize = 0;
    assert(texts(ids@) =~= superseded_ids(images@, 0));
    while i < images.len()
        invariant
            i <= images.len(),
            texts(ids@) == superseded_ids(images@, i as int),
        decreases images.len() - i,
    {
        if superseded(&images[i]) {
            let ghost before = texts(ids@);
            ids.push(images[i].id.clone());
            assert(texts(ids@) =~= before.push(images@[i as int].id@));
        }
        i += 1;
    }
    ids
}

/// Where a cleanup cycle stands.
#[derive(Debug, Clone, Copy, PartialEq, Eq, Structural)]
pub enum CleanupPhase {
    /// Waiting for the next tick.
    Idle,
    PruningContainers,
    PruningImages,
    ListingImages,
    /// Removing the superseded images; `next` of them are done.
    RemovingImages { next: usize },
}

/// What happened since the last step of a cleanup cycle. A failed call
/// carries its cause as text.
#[derive(Debug, PartialEq, Eq)]
pub enum CleanupEvent {
    /// The period elapsed.
    Tick,
    /// Containers were pruned; holds how many were deleted.
    ContainersPruned(Result<usize, String>),
    /// Images were pruned; holds how many were deleted.
    ImagesPruned(Result<usize, String>),
    ImagesListed(Result<Vec<ImageSummary>, String>),
    /// An image was removed; holds how many items the engine deleted.
    ImageRemoved(Result<usize, String>),
}

/// The number that a successful call reports, 0 for a failed one.
pub open spec fn reported(r: Result<usize, String>) -> nat {
    match r {
        Ok(n) => n as nat,
        Err(_) => 0,
    }
}

/// `a + b`, capped at the largest count.
pub open spec fn capped_sum(a: usize, b: nat) -> usize {
    if a + b > usize::MAX {
        usize::MAX
    } else {
        (a + b) as usize
    }
}

/// The outcome of one step of a cleanup cycle.
pub struct CleanupTransition {
    pub phase: CleanupPhase,
    pub pending: Seq<Seq<char>>,
    pub containers_pruned: usize,
    pub images_pruned: usize,
    pub command: Option<CommandView>,
}

/// The step that removes the image at `next`, or ends the cycle when none is
/// left.
pub open spec fn remove_from(
    pending: Seq<Seq<char>>,
    next: usize,
    containers_pruned: usize,
    images_pruned: usize,
) -> CleanupTransition {
    if next < pending.len() {
        CleanupTransition {
            phase: CleanupPhase::RemovingImages { next },
            pending,
            containers_pruned,
            images_pruned,
            command: Some(CommandView::RemoveImage { id: pending[next as int] }),
        }
    } else {
        CleanupTransition {
            phase: CleanupPhase::Idle,
            pending,
            containers_pruned,
            images_pruned,
            command: None,
        }
    }
}

/// The rule of the cleanup cycle. On each tick, stopped containers of the
/// service are pruned, then images of one-off executions, then the function
/// images are listed and the superseded ones removed one by one. Failures
/// do not stop the cycle, except that nothing is removed when the list
/// cannot be had.
pub open spec fn cleanup_transition(
    period_secs: u64,
    phase: CleanupPhase,
    pending: Seq<Seq<char>>,
    containers_pruned: usize,
    images_pruned: usize,
    event: CleanupEvent,
) -> CleanupTransition {
    match (phase, event) {
        (CleanupPhase::Idle, CleanupEvent::Tick) => CleanupTransition {
            phase: CleanupPhase::PruningContainers,
            pending: Seq::empty(),
            containers_pruned: 0,
            images_pruned: 0,
            command: Some(
                CommandView::PruneContainers { filters: container_prune_filters(period_secs) },
            ),
        },
        (CleanupPhase::PruningContainers, CleanupEvent::ContainersPruned(r)) => CleanupTransition {
            phase: CleanupPhase::PruningImages,
            pending,
            containers_pruned: capped_sum(0, reported(r)),
            images_pruned,
            command: Some(CommandView::PruneImages { filters: image_prune_filters(period_secs) }),
        },
        (CleanupPhase::PruningImages, CleanupEvent::ImagesPruned(r)) => CleanupTransition {
            phase: CleanupPhase::ListingImages,
            pending,
            containers_pruned,
            images_pruned: capped_sum(images_pruned, reported(r)),
            command: Some(CommandView::ListImages { filters: function_image_filters(period_secs) }),
        },
        (CleanupPhase::ListingImages, CleanupEvent::ImagesListed(r)) => match r {
            Ok(images) => remove_from(
                superseded_ids(images@, images@.len() as int),
                0,
                containers_pruned,
                images_pruned,
            ),
            Err(_) => CleanupTransition {
                phase: CleanupPhase::Idle,
                pending,
                containers_pruned,
                images_pruned,
                command: None,
            },
        },
        (CleanupPhase::RemovingImages { next }, CleanupEvent::ImageRemoved(r)) => if next
            < usize::MAX {
            remove_from(
                pending,
                (next + 1) as usize,
                containers_pruned,
                capped_sum(images_pruned, reported(r)),
            )
        } else {
            CleanupTransition {
                phase: CleanupPhase::Idle,
                pending,
                containers_pruned,
                images_pruned: capped_sum(images_pruned, reported(r)),
                command: None,
            }
        },
        _ => CleanupTransition {
            phase: CleanupPhase::Idle,
            pending,
            containers_pruned,
            images_pruned,
            command: None,
        },
    }
}

/// The periodic cleanup of containers and images.
pub struct ImageCleanup {
    /// The period between two cycles, in seconds.
    pub period_secs: u64,
    pub phase: CleanupPhase,
    /// Ids of the images that the current cycle removes.
    pub pending: Vec<String>,
    /// Containers pruned in the current cycle.
    pub containers_pruned: usize,
    /// Images pruned or removed in the current cycle.
    pub images_pruned: usize,
}

fn count(r: &Result<usize, String>) -> (n: usize)
    ensures
        n == reported(*r),
{
    match r {
        Ok(n) => *n,
        Err(_) => 0,
    }
}

fn add_capped(a: usize, b: usize) -> (s: usize)
    ensures
        s == capped_sum(a, b as nat),
{
    if a > usize::MAX - b {
        usize::MAX
    } else {
        a + b
    }
}

impl ImageCleanup {
    /// A cleanup that waits for its first tick.
    pub fn new(period_secs: u64) -> (c: ImageCleanup)
        ensures
            c.period_secs == period_secs,
            c.phase == CleanupPhase::Idle,
            c.pending@.len() == 0,
            c.containers_pruned == 0,
            c.images_pruned == 0,
    {
        ImageCleanup {
            period_secs,
            phase: CleanupPhase::Idle,
            pending: Vec::new(),
            containers_pruned: 0,
            images_pruned: 0,
        }
    }

    fn remove_next(&mut self, next: usize) -> (command: Option<EngineCommand>)
        ensures
            final(self).period_secs == old(self).period_secs,
            final(self).pending == old(self).pending,
            final(self).containers_pruned == old(self).containers_pruned,
            final(self).images_pruned == old(self).images_pruned,
            ({
                let t = remove_from(
                    texts(old(self).pending@),
                    next,
                    old(self).containers_pruned,
                    old(self).images_pruned,
                );
                &&& final(self).phase == t.phase
                &&& match command {
                    Some(c) => t.command == Some(c@),
                    None => t.command is None,
                }
            }),
    {
        assert(texts(self.pending@).len() == self.pending@.len());
        if next < self.pending.len() {
            self.phase = CleanupPhase::RemovingImages { next };
            assert(texts(self.pending@)[next as int] == self.pending@[next as int]@);
            Some(EngineCommand::RemoveImage { id: self.pending[next].clone() })
        } else {
            self.phase = CleanupPhase::Idle;
            None
        }
    }

    /// Advances the cycle: takes what happened since the last step and
    /// returns the next call on the engine, or nothing when the cycle is
    /// over until the next tick.
    pub fn step(&mut self, event: CleanupEvent) -> (command: Option<EngineCommand>)
        ensures
            final(self).period_secs == old(self).period_secs,
            ({
                let t = cleanup_transition(
                    old(self).period_secs,
                    old(self).phase,
                    texts(old(self).pending@),
                    old(self).containers_pruned,
                    old(self).images_pruned,
                    event,
                );
                &&& final(self).phase == t.phase
                &&& texts(final(self).pending@) == t.pending
                &&& final(self).containers_pruned == t.containers_pruned
                &&& final(self).images_pruned == t.images_pruned
                &&& match command {
                    Some(c) => t.command == Some(c@),
                    None => t.command is None,
                }
            }),
            command is None <==> final(self).phase is Idle,
    {
        let phase = self.phase;
        match (phase, event) {
            (CleanupPhase::Idle, CleanupEvent::Tick) => {
                self.phase = CleanupPhase::PruningContainers;
                self.pending = Vec::new();
                self.containers_pruned = 0;
                self.images_pruned = 0;
                assert(texts(self.pending@) =~= Seq::<Seq<char>>::empty());
                Some(
                    EngineCommand::PruneContainers {
                        filters: label_and_until(APP_LABEL, self.period_secs),
                    },
                )
            },
            (CleanupPhase::PruningContainers, CleanupEvent::ContainersPruned(r)) => {
                self.phase = CleanupPhase::PruningImages;
                self.containers_pruned = add_capped(0, count(&r));
                let mut filters = label_and_until(EXEC_LABEL, self.period_secs);
                let ghost before = filter_texts(filters@);
                filters.push(filter("dangling", "false".to_owned()));
                assert(filter_texts(filters@) =~= before.push(("dangling"@, seq!["false"@])));
                assert(filter_texts(filters@) =~= image_prune_filters(self.period_secs));
                Some(EngineCommand::PruneImages { filters })
            },
            (CleanupPhase::PruningImages, CleanupEvent::ImagesPruned(r)) => {
                self.phase = CleanupPhase::ListingImages;
                self.images_pruned = add_capped(self.images_pruned, count(&r));
                Some(
                    EngineCommand::ListImages {
                        filters: label_and_until(FN_LABEL, self.period_secs),
                    },
                )
            },
            (CleanupPhase::ListingImages, CleanupEvent::ImagesListed(r)) => {
                match r {
                    Ok(images) => {
                        self.pending = superseded_images(&images);
                        self.remove_next(0)
                    },
                    Err(_) => {
                        self.phase = CleanupPhase::Idle;
                        None
                    },
                }
            },
            (CleanupPhase::RemovingImages { next }, CleanupEvent::ImageRemoved(r)) => {
                self.images_pruned = add_capped(self.images_pruned, count(&r));
                if next < usize::MAX {
                    self.remove_next(next + 1)
                } else {
                    self.phase = CleanupPhase::Idle;
                    None
                }
            },
            _ => {
                self.phase = CleanupPhase::Idle;
                None
            },
        }
    }
}

/// The image that a status refers to is gone: the status is `Ready` and no
/// image of the engine has its id.
pub open spec fn is_stale(status: StatusView, image_ids: Seq<Seq<char>>) -> bool {
    status matches StatusView::Ready { tag, id } && !image_ids.contains(id)
}

/// The status of a function after a synchronisation: back to `NotBuilt` when
/// its image is gone, unchanged otherwise.
pub open spec fn synced_status(status: StatusView, image_ids: Seq<Seq<char>>) -> StatusView {
    if is_stale(status, image_ids) {
        StatusView::NotBuilt
    } else {
        status
    }
}

/// The ids of a list of images.
pub open spec fn image_ids(images: Seq<ImageSummary>) -> Seq<Seq<char>> {
    images.map_values(|i: ImageSummary| i.id@)
}

/// The names of the stale functions among the first `upto` of `functions`,
/// in order.
pub open spec fn stale_names(
    functions: Seq<(String, FunctionInfo)>,
    ids: Seq<Seq<char>>,
    upto: int,
) -> Seq<Seq<char>>
    decreases upto,
{
    if upto <= 0 {
        Seq::empty()
    } else if is_stale(functions[upto - 1].1.status@, ids) {
        stale_names(functions, ids, upto - 1).push(functions[upto - 1].0@)
    } else {
        stale_names(functions, ids, upto - 1)
    }
}

/// After a synchronisation no function is `Ready` with an image id that the
/// engine does not hold, and no other status has changed.
pub proof fn lemma_sync_leaves_no_stale_function(status: StatusView, image_ids: Seq<Seq<char>>)
    ensures
        !is_stale(synced_status(status, image_ids), image_ids),
        synced_status(status, image_ids) matches StatusView::Ready { tag, id } ==> image_ids.contains(
            id,
        ),
        !is_stale(status, image_ids) ==> synced_status(status, image_ids) == status,
        synced_status(status, image_ids) != status ==> status is Ready && synced_status(
            status,
            image_ids,
        ) is NotBuilt,
{
}

/// The statuses of the listed functions after a synchronisation.
pub open spec fn statuses_after_sync(functions: Seq<(String, FunctionInfo)>, ids: Seq<Seq<char>>) -> Seq<
    StatusView,
> {
    functions.map_values(|f: (String, FunctionInfo)| synced_status(f.1.status@, ids))
}

/// After one cycle no listed function is `Ready` with an image id that the
/// engine does not hold.
pub proof fn lemma_ready_functions_have_images(
    functions: Seq<(String, FunctionInfo)>,
    ids: Seq<Seq<char>>,
)
    ensures
        forall|i: int|
            0 <= i < functions.len() ==> (#[trigger] statuses_after_sync(functions, ids)[i]
                matches StatusView::Ready { tag, id } ==> ids.contains(id)),
{
    assert forall|i: int| 0 <= i < functions.len() implies (#[trigger] statuses_after_sync(
        functions,
        ids,
    )[i] matches StatusView::Ready { tag, id } ==> ids.contains(id)) by {
        lemma_sync_leaves_no_stale_function(functions[i].1.status@, ids);
    }
}

/// Every name that is listed as stale is the name of a stale function.
pub proof fn lemma_stale_names_sound(
    functions: Seq<(String, FunctionInfo)>,
    ids: Seq<Seq<char>>,
    upto: int,
    k: int,
)
    requires
        0 <= upto <= functions.len(),
        0 <= k < stale_names(functions, ids, upto).len(),
    ensures
        exists|i: int|
            0 <= i < upto && (#[trigger] functions[i]).0@ == stale_names(functions, ids, upto)[k]
                && is_stale(functions[i].1.status@, ids),
    decreases upto,
{
    let rest = stale_names(functions, ids, upto - 1);
    if is_stale(functions[upto - 1].1.status@, ids) && k == rest.len() {
        assert(functions[upto - 1].0@ == stale_names(functions, ids, upto)[k]);
    } else {
        lemma_stale_names_sound(functions, ids, upto - 1, k);
        let i = choose|i: int|
            0 <= i < upto - 1 && (#[trigger] functions[i]).0@ == rest[k] && is_stale(
                functions[i].1.status@,
                ids,
            );
        assert(functions[i].0@ == stale_names(functions, ids, upto)[k]);
    }
}

/// Every stale function is listed.
pub proof fn lemma_stale_names_complete(
    functions: Seq<(String, FunctionInfo)>,
    ids: Seq<Seq<char>>,
    upto: int,
    i: int,
)
    requires
        0 <= i < upto <= functions.len(),
        is_stale(functions[i].1.status@, ids),
    ensures
        stale_names(functions, ids, upto).contains(functions[i].0@),
    decreases upto,
{
    let rest = stale_names(functions, ids, upto - 1);
    if i == upto - 1 {
        assert(rest.push(functions[i].0@)[rest.len() as int] == functions[i].0@);
    } else {
        lemma_stale_names_complete(functions, ids, upto - 1, i);
        let k = choose|k: int| 0 <= k < rest.len() && rest[k] == functions[i].0@;
        assert(stale_names(functions, ids, upto)[k] == functions[i].0@);
    }
}

fn has_image(images: &Vec<ImageSummary>, id: &str) -> (b: bool)
    ensures
        b == image_ids(images@).contains(id@),
{
    let mut i: usize = 0;
    while i < images.len()
        invariant
            i <= images.len(),
            forall|j: int| 0 <= j < i ==> image_ids(images@)[j] != id@,
        decreases images.len() - i,
    {
        if same_text(images[i].id.as_str(), id) {
            assert(image_ids(images@)[i as int] == id@);
            return true;
        }
        i += 1;
    }
    false
}

/// Finds the functions whose status must go back to `NotBuilt`: those marked
/// ready whose image id matches no image of the engine. Returns their names
/// in the order of the list. A synchronisation is given every function
/// record of the store.
pub fn stale_functions(functions: &Vec<(String, FunctionInfo)>, images: &Vec<ImageSummary>) -> (names:
    Vec<String>)
    ensures
        texts(names@) == stale_names(functions@, image_ids(images@), functions@.len() as int),
{
    let mut names: Vec<String> = Vec::new();
    let mut i: usize = 0;
    assert(texts(names@) =~= stale_names(functions@, image_ids(images@), 0));
    while i < functions.len()
        invariant
            i <= functions.len(),
            texts(names@) == stale_names(functions@, image_ids(images@), i as int),
        decreases functions.len() - i,
    {
        let stale = match &functions[i].1.status {
            FunctionStatus::Ready { tag, id } => !has_image(images, id.as_str()),
            _ => false,
        };
        if stale {
            let ghost before = texts(names@);
            names.push(functions[i].0.clone());
            assert(texts(names@) =~= before.push(functions@[i as int].0@));
        }
        i += 1;
    }
    names
}

/// Seconds between two synchronisations of the function statuses.
pub const SYNC_PERIOD_SECS: u64 = 120;

/// The filters under which the function images are listed for a
/// synchronisation.
pub fn sync_image_filters() -> (f: Filters)
    ensures
        filter_texts(f@) == all_function_image_filters(),
{
    let mut f: Filters = Vec::new();
    f.push(filter("label", FN_LABEL.to_owned()));
    assert(filter_texts(f@) =~= all_function_image_filters());
    f
}

} // verus!
