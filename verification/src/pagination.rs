//! Splitting a workflow task completion that is too large for one request.
use crate::message::{Command, QueryResults, RespondWorkflowTaskCompletedRequest};
use crate::size::INTERMEDIATE_PAGE_TAG;
use crate::versioning::VersioningBehavior;
use crate::wire::{bool_len, bytes_len, string_len};
use vstd::prelude::*;

verus! {

/// Target maximum encoded size of one page of a completion: three mebibytes, which leaves room below
/// the server's limit of about four for framing, and for metadata that packing does not count.
pub const MAX_WFT_COMPLETION_PAGE_SIZE: usize = 3 * 1024 * 1024;

/// The room that a page sets aside for the framing of each command: one byte for the field's key and
/// up to five for the length of the body.
pub const COMMAND_FRAMING: usize = 6;

/// The room that a page sets aside for `command`.
pub open spec fn command_room(command: Command) -> nat {
    command.encoded@.len() + COMMAND_FRAMING as nat
}

/// The room that a page sets aside for `commands`.
pub open spec fn packed_len(commands: Seq<Command>) -> nat
    decreases commands.len(),
{
    if commands.len() == 0 {
        0
    } else {
        packed_len(commands.drop_last()) + command_room(commands.last())
    }
}

/// The encoded length of an intermediate page without commands and page number.
pub open spec fn page_overhead(request: RespondWorkflowTaskCompletedRequest) -> nat {
    bytes_len(1, request.task_token@) + string_len(3, request.identity@) + string_len(
        9,
        request.namespace@,
    ) + bool_len(INTERMEDIATE_PAGE_TAG, true)
}

/// Whether `request` is split: it is larger than a page, and none of its commands is by itself.
pub open spec fn is_split(
    request: RespondWorkflowTaskCompletedRequest,
    max_page_bytes: nat,
) -> bool {
    &&& request.encoded_size() > max_page_bytes
    &&& forall|i: int|
        #![trigger request.commands@[i]]
        0 <= i < request.commands@.len() ==> page_overhead(request) + command_room(
            request.commands@[i],
        ) <= max_page_bytes
}

/// Whether `chunks` are `commands` in order, packed greedily: no chunk is empty, each fits in a page,
/// and none has room for the first command of the next.
pub open spec fn is_packing(
    chunks: Seq<Seq<Command>>,
    commands: Seq<Command>,
    overhead: nat,
    max_page_bytes: nat,
) -> bool {
    &&& chunks.flatten() == commands
    &&& forall|i: int| 0 <= i < chunks.len() ==> (#[trigger] chunks[i]).len() > 0
    &&& forall|i: int|
        0 <= i < chunks.len() ==> overhead + packed_len(#[trigger] chunks[i]) <= max_page_bytes
    &&& forall|i: int, j: int|
        #![trigger chunks[i], chunks[j]]
        0 <= i && j == i + 1 && j < chunks.len() ==> overhead + packed_len(chunks[i])
            + command_room(chunks[j][0]) > max_page_bytes
}

/// Whether `page` carries nothing but routing fields, commands and its place among the pages.
pub open spec fn has_no_metadata(page: RespondWorkflowTaskCompletedRequest) -> bool {
    &&& page.sticky_attributes is None
    &&& !page.return_new_workflow_task
    &&& !page.force_create_new_workflow_task
    &&& page.binary_checksum@.len() == 0
    &&& page.query_results.entries@.len() == 0
    &&& page.worker_version_stamp is None
    &&& page.messages@.len() == 0
    &&& page.sdk_metadata is None
    &&& page.metering_metadata is None
    &&& page.capabilities is None
    &&& page.deployment is None
    &&& page.versioning_behavior is Unspecified
    &&& page.deployment_options is None
    &&& page.resource_id@.len() == 0
    &&& page.worker_instance_key@.len() == 0
    &&& page.worker_control_task_queue@.len() == 0
}

/// Whether `page` is the intermediate page of `request` with the given commands and number.
pub open spec fn is_intermediate_page(
    page: RespondWorkflowTaskCompletedRequest,
    request: RespondWorkflowTaskCompletedRequest,
    commands: Seq<Command>,
    number: int,
) -> bool {
    &&& page.task_token@ == request.task_token@
    &&& page.identity@ == request.identity@
    &&& page.namespace@ == request.namespace@
    &&& page.commands@ == commands
    &&& page.page_number == number as i32
    &&& page.intermediate_page
    &&& has_no_metadata(page)
}

/// Whether `page` is the final page of `request` after the given number of intermediate pages: all
/// of the request but its commands.
pub open spec fn is_final_page(
    page: RespondWorkflowTaskCompletedRequest,
    request: RespondWorkflowTaskCompletedRequest,
    intermediate_pages: int,
) -> bool {
    &&& page.commands@.len() == 0
    &&& page == (RespondWorkflowTaskCompletedRequest {
        commands: page.commands,
        page_number: intermediate_pages as i32,
        intermediate_page: false,
        ..request
    })
}

/// The commands of the pages before the last.
pub open spec fn page_commands(pages: Seq<RespondWorkflowTaskCompletedRequest>) -> Seq<
    Seq<Command>,
> {
    Seq::new((pages.len() - 1) as nat, |i: int| pages[i].commands@)
}

/// Whether `pages` are the pages of `request` under the given limit.
pub open spec fn are_pages(
    request: RespondWorkflowTaskCompletedRequest,
    max_page_bytes: nat,
    pages: Seq<RespondWorkflowTaskCompletedRequest>,
) -> bool {
    if is_split(request, max_page_bytes) {
        &&& pages.len() >= 1
        &&& is_packing(
            page_commands(pages),
            request.commands@,
            page_overhead(request),
            max_page_bytes,
        )
        &&& forall|i: int|
            0 <= i < pages.len() - 1 ==> is_intermediate_page(
                #[trigger] pages[i],
                request,
                pages[i].commands@,
                i,
            )
        &&& is_final_page(pages.last(), request, pages.len() - 1)
    } else {
        pages == seq![request]
    }
}

/// An intermediate page of `request`.
fn intermediate_page(
    request: &RespondWorkflowTaskCompletedRequest,
    commands: Vec<Command>,
    number: i32,
) -> (page: RespondWorkflowTaskCompletedRequest)
    ensures
        page.task_token@ == request.task_token@,
        page.identity@ == request.identity@,
        page.namespace@ == request.namespace@,
        page.commands == commands,
        page.page_number == number,
        page.intermediate_page,
        has_no_metadata(page),
{
    let task_token = request.task_token.clone();
    assert(task_token@ =~= request.task_token@);
    RespondWorkflowTaskCompletedRequest {
        task_token,
        commands,
        identity: request.identity.clone(),
        sticky_attributes: None,
        return_new_workflow_task: false,
        force_create_new_workflow_task: false,
        binary_checksum: String::new(),
        query_results: QueryResults { entries: Vec::new() },
        namespace: request.namespace.clone(),
        worker_version_stamp: None,
        messages: Vec::new(),
        sdk_metadata: None,
        metering_metadata: None,
        capabilities: None,
        deployment: None,
        versioning_behavior: VersioningBehavior::Unspecified,
        deployment_options: None,
        resource_id: String::new(),
        worker_instance_key: String::new(),
        worker_control_task_queue: String::new(),
        page_number: number,
        intermediate_page: true,
    }
}

/// Whether `chunks` and then `current` pack `commands`, as far as they have been packed.
#[verifier::opaque]
spec fn packed_so_far(
    chunks: Seq<Seq<Command>>,
    current: Seq<Command>,
    commands: Seq<Command>,
    overhead: nat,
    max_page_bytes: nat,
) -> bool {
    if commands.len() == 0 {
        chunks.len() == 0 && current.len() == 0
    } else {
        current.len() > 0 && is_packing(chunks.push(current), commands, overhead, max_page_bytes)
    }
}

/// A command joins the last chunk when there is room for it.
proof fn lemma_packing_extend(
    chunks: Seq<Seq<Command>>,
    current: Seq<Command>,
    commands: Seq<Command>,
    command: Command,
    overhead: nat,
    max_page_bytes: nat,
)
    requires
        current.len() > 0,
        packed_so_far(chunks, current, commands, overhead, max_page_bytes),
        overhead + packed_len(current) + command_room(command) <= max_page_bytes,
    ensures
        packed_so_far(
            chunks,
            current.push(command),
            commands.push(command),
            overhead,
            max_page_bytes,
        ),
{
    reveal(packed_so_far);
    let before = chunks.push(current);
    let after = chunks.push(current.push(command));
    chunks.lemma_flatten_push(current);
    chunks.lemma_flatten_push(current.push(command));
    assert(after.flatten() =~= commands.push(command));
    assert(current.push(command).drop_last() =~= current);
    assert(before[chunks.len() as int] == current);
    assert forall|i: int| 0 <= i < after.len() implies (#[trigger] after[i]).len() > 0 && overhead
        + packed_len(after[i]) <= max_page_bytes by {
        assert(i < chunks.len() ==> after[i] == before[i]);
    }
    assert forall|i: int, j: int|
        #![trigger after[i], after[j]]
        0 <= i && j == i + 1 && j < after.len() implies overhead + packed_len(after[i])
        + command_room(after[j][0]) > max_page_bytes by {
        assert(after[i] == before[i]);
        assert(after[j][0] == before[j][0]);
    }
}

/// A command starts a chunk when there is none yet, or no room for it in the last one.
proof fn lemma_packing_start(
    chunks: Seq<Seq<Command>>,
    commands: Seq<Command>,
    command: Command,
    overhead: nat,
    max_page_bytes: nat,
)
    requires
        commands.len() == 0 ==> chunks.len() == 0,
        commands.len() > 0 ==> chunks.len() > 0 && packed_so_far(
            chunks.drop_last(),
            chunks.last(),
            commands,
            overhead,
            max_page_bytes,
        ),
        overhead + command_room(command) <= max_page_bytes,
        chunks.len() > 0 ==> overhead + packed_len(chunks.last()) + command_room(command)
            > max_page_bytes,
    ensures
        packed_so_far(
            chunks,
            Seq::empty().push(command),
            commands.push(command),
            overhead,
            max_page_bytes,
        ),
{
    reveal(packed_so_far);
    let first = Seq::empty().push(command);
    let after = chunks.push(first);
    chunks.lemma_flatten_push(first);
    if chunks.len() > 0 {
        assert(chunks.drop_last().push(chunks.last()) =~= chunks);
    }
    assert(after.flatten() =~= commands.push(command));
    assert(first.drop_last() =~= Seq::<Command>::empty());
    assert(packed_len(first) == command_room(command)) by {
        reveal_with_fuel(packed_len, 2);
    }
    assert forall|i: int| 0 <= i < after.len() implies (#[trigger] after[i]).len() > 0 && overhead
        + packed_len(after[i]) <= max_page_bytes by {
        assert(i < chunks.len() ==> after[i] == chunks[i]);
    }
    assert forall|i: int, j: int|
        #![trigger after[i], after[j]]
        0 <= i && j == i + 1 && j < after.len() implies overhead + packed_len(after[i])
        + command_room(after[j][0]) > max_page_bytes by {
        assert(after[i] == chunks[i]);
        assert(j < chunks.len() ==> after[j] == chunks[j]);
    }
}

/// Whether every command of `request` fits in a page on its own.
fn commands_fit(
    request: &RespondWorkflowTaskCompletedRequest,
    max_page_bytes: usize,
) -> (fit: bool)
    ensures
        fit == forall|i: int|
            #![trigger request.commands@[i]]
            0 <= i < request.commands@.len() ==> page_overhead(*request) + command_room(
                request.commands@[i],
            ) <= max_page_bytes,
{
    let overhead = intermediate_page(request, Vec::new(), 0).checked_encoded_len();
    for i in 0..request.commands.len()
        invariant
            overhead@ == page_overhead(*request),
            forall|k: int|
                #![trigger request.commands@[k]]
                0 <= k < i ==> page_overhead(*request) + command_room(request.commands@[k])
                    <= max_page_bytes,
    {
        let with_command = overhead.add_value(request.commands[i].encoded.len()).add_value(
            COMMAND_FRAMING,
        );
        let fits = match with_command.to_option() {
            Some(n) => n <= max_page_bytes,
            None => false,
        };
        if !fits {
            assert(page_overhead(*request) + command_room(request.commands@[i as int])
                > max_page_bytes);
            return false;
        }
    }
    true
}

/// Splits a workflow task completion into ordered pages when it would exceed `max_page_bytes`.
///
/// Commands are distributed over intermediate pages, numbered from zero. The final page keeps all
/// messages and other metadata, and its number tells how many intermediate pages precede it. All
/// pages share the task token.
///
/// The request comes back unchanged, as the only page, when it fits already, and also when one of its
/// commands is larger than a page by itself: then splitting cannot help, and the server rejects the
/// request.
pub fn paginate_wft_completion(
    request: RespondWorkflowTaskCompletedRequest,
    max_page_bytes: usize,
) -> (pages: Vec<RespondWorkflowTaskCompletedRequest>)
    ensures
        are_pages(request, max_page_bytes as nat, pages@),
{
    let fits = match request.checked_encoded_len().to_option() {
        Some(n) => n <= max_page_bytes,
        None => false,
    };
    if fits || !commands_fit(&request, max_page_bytes) {
        let pages = vec![request];
        assert(pages@ =~= seq![request]);
        return pages;
    }
    let ghost all = request.commands@;
    let ghost overhead = page_overhead(request);
    let ghost max = max_page_bytes as nat;
    let template = intermediate_page(&request, Vec::new(), 0);
    let mut rest = request;
    let mut commands: Vec<Command> = Vec::new();
    std::mem::swap(&mut commands, &mut rest.commands);
    if commands.len() == 0 {
        // Metadata alone is too large: it stays on the final page, and no other page precedes it.
        rest.page_number = 0;
        rest.intermediate_page = false;
        let pages = vec![rest];
        assert(page_commands(pages@) =~= Seq::<Seq<Command>>::empty());
        assert(all =~= Seq::<Command>::empty());
        return pages;
    }
    assert(overhead + command_room(all[0]) <= max);
    let base_len = template.encoded_len();
    let mut pages: Vec<RespondWorkflowTaskCompletedRequest> = Vec::new();
    let mut current: Vec<Command> = Vec::new();
    let mut current_len = base_len;
    let ghost mut chunks: Seq<Seq<Command>> = Seq::empty();
    assert(packed_so_far(chunks, current@, all.take(0), overhead, max)) by {
        reveal(packed_so_far);
    }
    for command in it: commands.into_iter()
        invariant
            it.seq() == all,
            is_split(request, max),
            all == request.commands@,
            overhead == page_overhead(request),
            max == max_page_bytes,
            base_len == overhead,
            template.task_token@ == request.task_token@,
            template.identity@ == request.identity@,
            template.namespace@ == request.namespace@,
            current_len == overhead + packed_len(current@),
            current_len <= max,
            pages@.len() == chunks.len(),
            forall|i: int|
                0 <= i < pages@.len() ==> is_intermediate_page(
                    #[trigger] pages@[i],
                    request,
                    chunks[i],
                    i,
                ),
            packed_so_far(chunks, current@, all.take(it.index() as int), overhead, max),
    {
        let ghost n = it.index() as int;
        assert(command == all[n]);
        assert(overhead + command_room(all[n]) <= max);
        assert(all.take(n + 1) =~= all.take(n).push(command));
        let command_len = command.encoded.len() + COMMAND_FRAMING;
        if current.len() > 0 && command_len > max_page_bytes - current_len {
            let mut full: Vec<Command> = Vec::new();
            std::mem::swap(&mut full, &mut current);
            let page = intermediate_page(&template, full, pages.len() as i32);
            proof {
                assert(n > 0) by {
                    reveal(packed_so_far);
                }
                assert(chunks.push(full@).drop_last() =~= chunks);
                chunks = chunks.push(full@);
                lemma_packing_start(chunks, all.take(n), command, overhead, max);
            }
            pages.push(page);
            current_len = base_len;
        } else {
            proof {
                if current@.len() > 0 {
                    lemma_packing_extend(
                        chunks,
                        current@,
                        all.take(n),
                        command,
                        overhead,
                        max,
                    );
                } else {
                    assert(chunks.len() == 0 && n == 0) by {
                        reveal(packed_so_far);
                    }
                    lemma_packing_start(chunks, all.take(n), command, overhead, max);
                }
            }
        }
        assert(current@.len() == 0 ==> current@ =~= Seq::empty());
        assert(packed_so_far(chunks, current@.push(command), all.take(n + 1), overhead, max));
        let ghost before = current@;
        assert(current_len == overhead + packed_len(before));
        current_len = current_len + command_len;
        current.push(command);
        assert(current@.drop_last() =~= before);
    }
    assert(all.take(all.len() as int) =~= all);
    let ghost last = current@;
    assert(is_packing(chunks.push(last), all, overhead, max)) by {
        reveal(packed_so_far);
    }
    let page = intermediate_page(&template, current, pages.len() as i32);
    pages.push(page);
    rest.page_number = pages.len() as i32;
    rest.intermediate_page = false;
    pages.push(rest);
    assert(page_commands(pages@) =~= chunks.push(last));
    pages
}

} // verus!
