//! What holds of the pages of every workflow task completion.
use crate::message::{Command, RespondWorkflowTaskCompletedRequest};
use crate::pagination::{
    are_pages, command_room, has_no_metadata, is_intermediate_page, is_packing, is_split,
    packed_len, page_commands, page_overhead, paginate_wft_completion,
    MAX_WFT_COMPLETION_PAGE_SIZE,
};
use crate::size::{commands_len, COMMANDS_TAG, PAGE_NUMBER_TAG};
use crate::wire::{bytes_len, int32_len, int32_on_wire, key_len, string_len, varint_len};
use vstd::prelude::*;

verus! {

/// The commands of all pages, the last included.
pub open spec fn all_commands(pages: Seq<RespondWorkflowTaskCompletedRequest>) -> Seq<Seq<Command>> {
    Seq::new(pages.len(), |i: int| pages[i].commands@)
}

/// Pagination keeps every command exactly once, in its order: the commands of the pages, one page
/// after the other, are those of the request.
pub proof fn pages_keep_commands(
    request: RespondWorkflowTaskCompletedRequest,
    max_page_bytes: nat,
    pages: Seq<RespondWorkflowTaskCompletedRequest>,
)
    requires
        are_pages(request, max_page_bytes, pages),
    ensures
        all_commands(pages).flatten() == request.commands@,
{
    let last = pages.last().commands@;
    assert(all_commands(pages) =~= page_commands(pages).push(last));
    page_commands(pages).lemma_flatten_push(last);
    if !is_split(request, max_page_bytes) {
        assert(page_commands(pages) =~= Seq::<Seq<Command>>::empty());
    }
    assert(all_commands(pages).flatten() =~= request.commands@);
}

/// All pages share the task token, the identity and the namespace of the request.
pub proof fn pages_share_routing(
    request: RespondWorkflowTaskCompletedRequest,
    max_page_bytes: nat,
    pages: Seq<RespondWorkflowTaskCompletedRequest>,
    i: int,
)
    requires
        are_pages(request, max_page_bytes, pages),
        0 <= i < pages.len(),
    ensures
        pages[i].task_token@ == request.task_token@,
        pages[i].identity@ == request.identity@,
        pages[i].namespace@ == request.namespace@,
{
}

/// The pages of a request that is not itself a page are numbered from zero, and exactly the last of
/// them is not intermediate. So its number tells how many intermediate pages precede it.
pub proof fn pages_are_numbered(
    request: RespondWorkflowTaskCompletedRequest,
    max_page_bytes: nat,
    pages: Seq<RespondWorkflowTaskCompletedRequest>,
    i: int,
)
    requires
        are_pages(request, max_page_bytes, pages),
        request.page_number == 0,
        !request.intermediate_page,
        pages.len() <= i32::MAX,
        0 <= i < pages.len(),
    ensures
        pages[i].page_number == i,
        pages[i].intermediate_page == (i < pages.len() - 1),
{
}

/// Everything but the commands stays on the last page, and on no other.
pub proof fn metadata_stays_on_last_page(
    request: RespondWorkflowTaskCompletedRequest,
    max_page_bytes: nat,
    pages: Seq<RespondWorkflowTaskCompletedRequest>,
    i: int,
)
    requires
        are_pages(request, max_page_bytes, pages),
        0 <= i < pages.len(),
    ensures
        i < pages.len() - 1 ==> has_no_metadata(pages[i]),
        i == pages.len() - 1 ==> pages[i] == (RespondWorkflowTaskCompletedRequest {
            commands: pages[i].commands,
            page_number: pages[i].page_number,
            intermediate_page: pages[i].intermediate_page,
            ..request
        }),
{
}

/// There is more than one page exactly for a request that has commands, is larger than a page, and
/// has no command that is larger than a page by itself.
pub proof fn several_pages_only_when_split(
    request: RespondWorkflowTaskCompletedRequest,
    max_page_bytes: nat,
    pages: Seq<RespondWorkflowTaskCompletedRequest>,
)
    requires
        are_pages(request, max_page_bytes, pages),
    ensures
        pages.len() > 1 <==> is_split(request, max_page_bytes) && request.commands@.len() > 0,
        is_split(request, max_page_bytes) && request.commands@.len() > 0
            ==> pages.last().commands@.len() == 0,
{
    if is_split(request, max_page_bytes) {
        if pages.len() > 1 {
            assert(page_commands(pages)[0].len() > 0);
            assert(page_commands(pages).flatten().len() > 0);
        } else {
            assert(page_commands(pages) =~= Seq::<Seq<Command>>::empty());
        }
    }
}

proof fn lemma_varint_len_bound(value: nat)
    ensures
        1 <= varint_len(value),
        value < 0x8_0000_0000 ==> varint_len(value) <= 5,
        value < 0x1_0000_0000_0000_0000 ==> varint_len(value) <= 10,
{
    reveal_with_fuel(varint_len, 11);
}

/// The framing that a page sets aside for its commands is as much as they need, as long as none of
/// them is 32 gibibytes or more.
proof fn lemma_commands_len_within_room(commands: Seq<Command>)
    requires
        forall|i: int|
            #![trigger commands[i]]
            0 <= i < commands.len() ==> commands[i].encoded@.len() < 0x8_0000_0000,
    ensures
        commands_len(commands) <= packed_len(commands),
    decreases commands.len(),
{
    if commands.len() > 0 {
        let rest = commands.drop_last();
        assert forall|i: int| #![trigger rest[i]] 0 <= i < rest.len() implies rest[i].encoded@.len()
            < 0x8_0000_0000 by {
            assert(rest[i] == commands[i]);
        }
        lemma_commands_len_within_room(rest);
        let body = commands.last().encoded@.len();
        assert(commands[commands.len() - 1].encoded@.len() < 0x8_0000_0000);
        lemma_varint_len_bound(body);
        assert(key_len(COMMANDS_TAG) == 1) by {
            reveal_with_fuel(varint_len, 1);
        }
    }
}

proof fn lemma_command_within_packed_len(commands: Seq<Command>, i: int)
    requires
        0 <= i < commands.len(),
    ensures
        commands[i].encoded@.len() < packed_len(commands),
    decreases commands.len(),
{
    if i < commands.len() - 1 {
        lemma_command_within_packed_len(commands.drop_last(), i);
    }
}

/// The encoded length of an intermediate page.
pub proof fn intermediate_page_size(
    page: RespondWorkflowTaskCompletedRequest,
    request: RespondWorkflowTaskCompletedRequest,
    commands: Seq<Command>,
    number: int,
)
    requires
        is_intermediate_page(page, request, commands, number),
    ensures
        page.encoded_size() == page_overhead(request) + commands_len(commands) + int32_len(
            PAGE_NUMBER_TAG,
            page.page_number,
        ),
{
}

/// An intermediate page exceeds the limit by no more than the bytes of its own page number, which
/// packing does not count, and exactly when there is no room left for them. The first page, whose
/// number is zero and is left out, stays within the limit; so does every page whose commands leave as
/// much of the room for their framing unused.
pub proof fn intermediate_pages_fit(
    request: RespondWorkflowTaskCompletedRequest,
    max_page_bytes: nat,
    pages: Seq<RespondWorkflowTaskCompletedRequest>,
    i: int,
)
    requires
        are_pages(request, max_page_bytes, pages),
        0 <= i < pages.len() - 1,
        forall|k: int|
            #![trigger pages[i].commands@[k]]
            0 <= k < pages[i].commands@.len() ==> pages[i].commands@[k].encoded@.len()
                < 0x8_0000_0000,
    ensures
        pages[i].encoded_size() <= max_page_bytes + int32_len(PAGE_NUMBER_TAG, pages[i].page_number),
        pages[i].encoded_size() > max_page_bytes <==> int32_len(
            PAGE_NUMBER_TAG,
            pages[i].page_number,
        ) > max_page_bytes - page_overhead(request) - commands_len(pages[i].commands@),
        i == 0 ==> pages[i].encoded_size() <= max_page_bytes,
        commands_len(pages[i].commands@) + int32_len(PAGE_NUMBER_TAG, pages[i].page_number)
            <= packed_len(pages[i].commands@) ==> pages[i].encoded_size() <= max_page_bytes,
{
    let commands = pages[i].commands@;
    assert(page_commands(pages)[i] == commands);
    intermediate_page_size(pages[i], request, commands, i);
    lemma_commands_len_within_room(commands);
}

/// Under the page size that workers use, every intermediate page stays below four mebibytes.
pub proof fn intermediate_pages_stay_below_request_limit(
    request: RespondWorkflowTaskCompletedRequest,
    pages: Seq<RespondWorkflowTaskCompletedRequest>,
    i: int,
)
    requires
        are_pages(request, MAX_WFT_COMPLETION_PAGE_SIZE as nat, pages),
        0 <= i < pages.len() - 1,
    ensures
        pages[i].encoded_size() <= MAX_WFT_COMPLETION_PAGE_SIZE + 12,
        pages[i].encoded_size() < 4 * 1024 * 1024,
{
    let commands = pages[i].commands@;
    assert(page_commands(pages)[i] == commands);
    assert forall|k: int| #![trigger commands[k]] 0 <= k < commands.len() implies commands[
        k
    ].encoded@.len() < 0x8_0000_0000 by {
        lemma_command_within_packed_len(commands, k);
    }
    intermediate_pages_fit(request, MAX_WFT_COMPLETION_PAGE_SIZE as nat, pages, i);
    lemma_varint_len_bound(int32_on_wire(pages[i].page_number));
    assert(key_len(PAGE_NUMBER_TAG) == 2) by {
        reveal_with_fuel(varint_len, 2);
    }
}

proof fn lemma_packed_len_monotone(commands: Seq<Command>, m: int, n: int)
    requires
        0 <= m <= n <= commands.len(),
    ensures
        packed_len(commands.take(m)) <= packed_len(commands.take(n)),
    decreases n,
{
    if m < n {
        lemma_packed_len_monotone(commands, m, n - 1);
        assert(commands.take(n).drop_last() =~= commands.take(n - 1));
    }
}

/// Greedy packing leaves no choice: commands have one packing only.
pub proof fn packing_is_unique(
    a: Seq<Seq<Command>>,
    b: Seq<Seq<Command>>,
    commands: Seq<Command>,
    overhead: nat,
    max_page_bytes: nat,
)
    requires
        is_packing(a, commands, overhead, max_page_bytes),
        is_packing(b, commands, overhead, max_page_bytes),
    ensures
        a == b,
    decreases a.len(),
{
    if a.len() == 0 {
        if b.len() > 0 {
            assert(b[0].len() > 0);
            assert(b.flatten().len() > 0);
            assert(a.flatten().len() == 0);
        }
        assert(a =~= b);
    } else if b.len() == 0 {
        assert(a[0].len() > 0);
        assert(a.flatten().len() > 0);
        assert(b.flatten().len() == 0);
    } else {
        let n = a[0].len() as int;
        assert(a[0] =~= commands.take(n));
        assert(b[0] =~= commands.take(b[0].len() as int));
        lemma_first_chunk_reaches(a, commands, b[0].len() as int, overhead, max_page_bytes);
        lemma_first_chunk_reaches(b, commands, n, overhead, max_page_bytes);
        lemma_tail_is_packing(a, commands, overhead, max_page_bytes);
        lemma_tail_is_packing(b, commands, overhead, max_page_bytes);
        packing_is_unique(
            a.drop_first(),
            b.drop_first(),
            commands.skip(n),
            overhead,
            max_page_bytes,
        );
        assert(a =~= seq![a[0]] + a.drop_first());
        assert(b =~= seq![b[0]] + b.drop_first());
    }
}

/// The pages of a request are determined by it and by the limit: how many there are, and which
/// commands each of them carries.
pub proof fn pages_are_determined(
    request: RespondWorkflowTaskCompletedRequest,
    max_page_bytes: nat,
    pages: Seq<RespondWorkflowTaskCompletedRequest>,
    others: Seq<RespondWorkflowTaskCompletedRequest>,
)
    requires
        are_pages(request, max_page_bytes, pages),
        are_pages(request, max_page_bytes, others),
    ensures
        all_commands(pages) == all_commands(others),
{
    if is_split(request, max_page_bytes) {
        packing_is_unique(
            page_commands(pages),
            page_commands(others),
            request.commands@,
            page_overhead(request),
            max_page_bytes,
        );
        assert(page_commands(pages).len() == page_commands(others).len());
        assert forall|i: int| 0 <= i < pages.len() implies all_commands(pages)[i] == all_commands(
            others,
        )[i] by {
            if i < pages.len() - 1 {
                assert(page_commands(pages)[i] == page_commands(others)[i]);
            } else {
                assert(pages.last().commands@ =~= others.last().commands@);
            }
        }
    }
    assert(all_commands(pages) =~= all_commands(others));
}

proof fn lemma_tail_is_packing(
    chunks: Seq<Seq<Command>>,
    commands: Seq<Command>,
    overhead: nat,
    max_page_bytes: nat,
)
    requires
        is_packing(chunks, commands, overhead, max_page_bytes),
        chunks.len() > 0,
    ensures
        is_packing(
            chunks.drop_first(),
            commands.skip(chunks[0].len() as int),
            overhead,
            max_page_bytes,
        ),
{
    let tail = chunks.drop_first();
    assert(tail.flatten() =~= commands.skip(chunks[0].len() as int));
    assert forall|i: int| 0 <= i < tail.len() implies (#[trigger] tail[i]).len() > 0 && overhead
        + packed_len(tail[i]) <= max_page_bytes by {
        assert(tail[i] == chunks[i + 1]);
    }
    assert forall|i: int, j: int|
        #![trigger tail[i], tail[j]]
        0 <= i && j == i + 1 && j < tail.len() implies overhead + packed_len(tail[i])
        + command_room(tail[j][0]) > max_page_bytes by {
        assert(tail[i] == chunks[i + 1]);
        assert(tail[j] == chunks[j + 1]);
    }
}

/// Whether `chunks` are `commands` in order, cut in any way into chunks that fit in a page.
pub open spec fn is_cut(
    chunks: Seq<Seq<Command>>,
    commands: Seq<Command>,
    overhead: nat,
    max_page_bytes: nat,
) -> bool {
    &&& chunks.flatten() == commands
    &&& forall|i: int|
        0 <= i < chunks.len() ==> overhead + packed_len(#[trigger] chunks[i]) <= max_page_bytes
}

proof fn lemma_packed_len_add(a: Seq<Command>, b: Seq<Command>)
    ensures
        packed_len(a + b) == packed_len(a) + packed_len(b),
    decreases b.len(),
{
    if b.len() == 0 {
        assert(a + b =~= a);
    } else {
        assert((a + b).drop_last() =~= a + b.drop_last());
        lemma_packed_len_add(a, b.drop_last());
    }
}

/// The first chunk of a packing reaches at least as far as any commands from the start that fit.
proof fn lemma_first_chunk_reaches(
    chunks: Seq<Seq<Command>>,
    commands: Seq<Command>,
    n: int,
    overhead: nat,
    max_page_bytes: nat,
)
    requires
        is_packing(chunks, commands, overhead, max_page_bytes),
        chunks.len() > 0,
        0 <= n <= commands.len(),
        overhead + packed_len(commands.take(n)) <= max_page_bytes,
    ensures
        chunks[0].len() >= n,
{
    let m = chunks[0].len() as int;
    assert(chunks[0] =~= commands.take(m));
    if m < n {
        let rest = chunks.drop_first();
        if rest.len() == 0 {
            chunks.lemma_flatten_one_element();
        } else {
            assert(rest[0] == chunks[1]);
            assert(chunks[1].len() > 0);
            assert(rest.flatten() =~= rest[0] + rest.drop_first().flatten());
            assert(commands[m] == chunks[1][0]);
            lemma_packed_len_monotone(commands, m + 1, n);
            assert(commands.take(m + 1).drop_last() =~= commands.take(m));
            assert(overhead + packed_len(chunks[0]) + command_room(chunks[1][0]) > max_page_bytes);
        }
    }
}

/// A packing of the last commands has no more chunks than a cut of all of them.
proof fn lemma_packing_of_rest_is_short(
    chunks: Seq<Seq<Command>>,
    cut: Seq<Seq<Command>>,
    commands: Seq<Command>,
    k: int,
    overhead: nat,
    max_page_bytes: nat,
)
    requires
        0 <= k <= commands.len(),
        is_packing(chunks, commands.skip(k), overhead, max_page_bytes),
        is_cut(cut, commands, overhead, max_page_bytes),
    ensures
        chunks.len() <= cut.len(),
    decreases cut.len(),
{
    if chunks.len() > 0 {
        let rest = commands.skip(k);
        assert(chunks[0].len() > 0);
        assert(chunks.flatten().len() > 0);
        assert(cut.len() > 0) by {
            if cut.len() == 0 {
                assert(cut.flatten().len() == 0);
            }
        }
        let n = cut[0].len() as int;
        assert(cut[0] =~= commands.take(n));
        let shorter = cut.drop_first();
        assert(shorter.flatten() =~= commands.skip(n));
        assert forall|i: int| 0 <= i < shorter.len() implies overhead + packed_len(
            #[trigger] shorter[i],
        ) <= max_page_bytes by {
            assert(shorter[i] == cut[i + 1]);
        }
        if n <= k {
            assert(commands.skip(n).skip(k - n) =~= rest);
            lemma_packing_of_rest_is_short(
                chunks,
                shorter,
                commands.skip(n),
                k - n,
                overhead,
                max_page_bytes,
            );
        } else {
            assert(rest.take(n - k) =~= commands.subrange(k, n));
            assert(commands.take(n) =~= commands.take(k) + rest.take(n - k));
            lemma_packed_len_add(commands.take(k), rest.take(n - k));
            lemma_first_chunk_reaches(chunks, rest, n - k, overhead, max_page_bytes);
            let m = chunks[0].len() as int;
            assert(rest.len() >= m);
            lemma_tail_is_packing(chunks, rest, overhead, max_page_bytes);
            assert(rest.skip(m) =~= commands.skip(n).skip(k + m - n));
            lemma_packing_of_rest_is_short(
                chunks.drop_first(),
                shorter,
                commands.skip(n),
                k + m - n,
                overhead,
                max_page_bytes,
            );
        }
    }
}

/// No way to cut the commands, in order, into pages that fit has fewer pages than greedy packing.
pub proof fn packing_has_fewest_pages(
    chunks: Seq<Seq<Command>>,
    cut: Seq<Seq<Command>>,
    commands: Seq<Command>,
    overhead: nat,
    max_page_bytes: nat,
)
    requires
        is_packing(chunks, commands, overhead, max_page_bytes),
        is_cut(cut, commands, overhead, max_page_bytes),
    ensures
        chunks.len() <= cut.len(),
{
    assert(commands.skip(0) =~= commands);
    lemma_packing_of_rest_is_short(chunks, cut, commands, 0, overhead, max_page_bytes);
}

/// The bytes of `commands`, one after the other.
pub open spec fn command_bytes(commands: Seq<Command>) -> Seq<u8> {
    commands.map_values(|command: Command| command.encoded@).flatten()
}

/// A page sets aside the bytes of its commands, and six for the framing of each.
pub proof fn room_is_bytes_and_framing(commands: Seq<Command>)
    ensures
        packed_len(commands) == command_bytes(commands).len() + 6 * commands.len(),
    decreases commands.len(),
{
    let bodies = commands.map_values(|command: Command| command.encoded@);
    if commands.len() == 0 {
        assert(bodies =~= Seq::<Seq<u8>>::empty());
    } else {
        let shorter = commands.drop_last();
        room_is_bytes_and_framing(shorter);
        let shorter_bodies = shorter.map_values(|command: Command| command.encoded@);
        assert(bodies =~= shorter_bodies.push(commands.last().encoded@));
        shorter_bodies.lemma_flatten_push(commands.last().encoded@);
    }
}

/// What an intermediate page needs before it holds a command is its token, its identity, its
/// namespace and the three bytes that mark it as intermediate.
proof fn lemma_page_overhead(request: RespondWorkflowTaskCompletedRequest)
    ensures
        page_overhead(request) == bytes_len(1, request.task_token@) + string_len(
            3,
            request.identity@,
        ) + string_len(9, request.namespace@) + 3,
{
    reveal_with_fuel(varint_len, 2);
}

/// A completion that is larger than the limit is split whenever it has commands and each of them,
/// with its framing, leaves room for the routing fields of a page. Nothing else that it carries makes
/// a difference.
pub proof fn oversized_completion_is_split(
    request: RespondWorkflowTaskCompletedRequest,
    max_page_bytes: usize,
    pages: Vec<RespondWorkflowTaskCompletedRequest>,
)
    requires
        call_ensures(paginate_wft_completion, (request, max_page_bytes), pages),
        request.encoded_size() > max_page_bytes,
        request.commands@.len() > 0,
        forall|i: int|
            #![trigger request.commands@[i]]
            0 <= i < request.commands@.len() ==> bytes_len(1, request.task_token@) + string_len(
                3,
                request.identity@,
            ) + string_len(9, request.namespace@) + 3 + request.commands@[i].encoded@.len() + 6
                <= max_page_bytes,
    ensures
        pages@.len() > 1,
        pages@.last().commands@.len() == 0,
        forall|i: int|
            #![trigger pages@[i]]
            0 <= i < pages@.len() - 1 ==> pages@[i].commands@.len() > 0,
{
    let max = max_page_bytes as nat;
    lemma_page_overhead(request);
    several_pages_only_when_split(request, max, pages@);
    assert forall|i: int| #![trigger pages@[i]] 0 <= i < pages@.len() - 1 implies pages@[
        i
    ].commands@.len() > 0 by {
        assert(page_commands(pages@)[i].len() > 0);
    }
}

/// A completion within the limit is sent as it is. So is one with a command that, with its framing,
/// leaves no room for the routing fields of a page.
pub proof fn completion_that_cannot_be_split_is_whole(
    request: RespondWorkflowTaskCompletedRequest,
    max_page_bytes: usize,
    pages: Vec<RespondWorkflowTaskCompletedRequest>,
)
    requires
        call_ensures(paginate_wft_completion, (request, max_page_bytes), pages),
    ensures
        request.encoded_size() <= max_page_bytes ==> pages@ == seq![request],
        forall|i: int|
            #![trigger request.commands@[i]]
            0 <= i < request.commands@.len() && bytes_len(1, request.task_token@) + string_len(
                3,
                request.identity@,
            ) + string_len(9, request.namespace@) + 3 + request.commands@[i].encoded@.len() + 6
                > max_page_bytes ==> pages@ == seq![request],
        request.commands@.len() == 0 ==> pages@.len() == 1,
        request.commands@.len() == 0 && request.page_number == 0 && !request.intermediate_page
            ==> pages@[0].commands@.len() == 0 && pages@[0] == (RespondWorkflowTaskCompletedRequest {
            commands: pages@[0].commands,
            ..request
        }),
{
    lemma_page_overhead(request);
    several_pages_only_when_split(request, max_page_bytes as nat, pages@);
}

/// The commands of an intermediate page, each with six bytes for its framing, and the page's routing
/// fields stay within the limit. With the first command of the next page they do not.
pub proof fn pages_are_filled_in_order(
    request: RespondWorkflowTaskCompletedRequest,
    max_page_bytes: usize,
    pages: Vec<RespondWorkflowTaskCompletedRequest>,
    i: int,
)
    requires
        call_ensures(paginate_wft_completion, (request, max_page_bytes), pages),
        0 <= i < pages@.len() - 1,
    ensures
        ({
            let routing = bytes_len(1, request.task_token@) + string_len(3, request.identity@)
                + string_len(9, request.namespace@) + 3;
            let commands = pages@[i].commands@;
            let next = pages@[i + 1].commands@;
            let room = command_bytes(commands).len() + 6 * commands.len();
            &&& routing + room <= max_page_bytes
            &&& i + 1 < pages@.len() - 1 ==> next.len() > 0 && routing + room
                + next[0].encoded@.len() + 6 > max_page_bytes
        }),
{
    lemma_page_overhead(request);
    let chunks = page_commands(pages@);
    assert(chunks[i] == pages@[i].commands@);
    room_is_bytes_and_framing(pages@[i].commands@);
    if i + 1 < pages@.len() - 1 {
        assert(chunks[i + 1] == pages@[i + 1].commands@);
        assert(chunks[i + 1].len() > 0);
    }
}

/// An intermediate page carries the token, the identity and the namespace of the completion, its
/// commands, its number and its mark, and nothing else.
pub proof fn intermediate_page_carries_commands_only(
    request: RespondWorkflowTaskCompletedRequest,
    max_page_bytes: usize,
    pages: Vec<RespondWorkflowTaskCompletedRequest>,
    i: int,
)
    requires
        call_ensures(paginate_wft_completion, (request, max_page_bytes), pages),
        0 <= i < pages@.len() - 1,
    ensures
        pages@[i].task_token@ == request.task_token@,
        pages@[i].identity@ == request.identity@,
        pages@[i].namespace@ == request.namespace@,
        pages@[i].page_number == i as i32,
        pages@[i].intermediate_page,
        pages@[i].commands@.len() > 0,
        pages@[i].sticky_attributes is None,
        !pages@[i].return_new_workflow_task,
        !pages@[i].force_create_new_workflow_task,
        pages@[i].binary_checksum@ == Seq::<char>::empty(),
        pages@[i].query_results.entries@.len() == 0,
        pages@[i].worker_version_stamp is None,
        pages@[i].messages@.len() == 0,
        pages@[i].sdk_metadata is None,
        pages@[i].metering_metadata is None,
        pages@[i].capabilities is None,
        pages@[i].deployment is None,
        pages@[i].versioning_behavior is Unspecified,
        pages@[i].deployment_options is None,
        pages@[i].resource_id@ == Seq::<char>::empty(),
        pages@[i].worker_instance_key@ == Seq::<char>::empty(),
        pages@[i].worker_control_task_queue@ == Seq::<char>::empty(),
{
    assert(page_commands(pages@)[i].len() > 0);
}

/// The last page carries everything of the completion but the commands that other pages carry.
pub proof fn last_page_carries_the_rest(
    request: RespondWorkflowTaskCompletedRequest,
    max_page_bytes: usize,
    pages: Vec<RespondWorkflowTaskCompletedRequest>,
)
    requires
        call_ensures(paginate_wft_completion, (request, max_page_bytes), pages),
    ensures
        pages@.len() >= 1,
        pages@.last().task_token == request.task_token,
        pages@.last().identity == request.identity,
        pages@.last().namespace == request.namespace,
        pages@.last().sticky_attributes == request.sticky_attributes,
        pages@.last().return_new_workflow_task == request.return_new_workflow_task,
        pages@.last().force_create_new_workflow_task == request.force_create_new_workflow_task,
        pages@.last().binary_checksum == request.binary_checksum,
        pages@.last().query_results == request.query_results,
        pages@.last().worker_version_stamp == request.worker_version_stamp,
        pages@.last().messages == request.messages,
        pages@.last().sdk_metadata == request.sdk_metadata,
        pages@.last().metering_metadata == request.metering_metadata,
        pages@.last().capabilities == request.capabilities,
        pages@.last().deployment == request.deployment,
        pages@.last().versioning_behavior == request.versioning_behavior,
        pages@.last().deployment_options == request.deployment_options,
        pages@.last().resource_id == request.resource_id,
        pages@.last().worker_instance_key == request.worker_instance_key,
        pages@.last().worker_control_task_queue == request.worker_control_task_queue,
        pages@.len() > 1 ==> {
            &&& pages@.last().commands@.len() == 0
            &&& pages@.last().page_number == (pages@.len() - 1) as i32
            &&& !pages@.last().intermediate_page
        },
        pages@.len() == 1 ==> pages@.last().commands@ == request.commands@,
        request.commands@.len() == 0 && request.encoded_size() > max_page_bytes
            ==> pages@.last().page_number == 0 && !pages@.last().intermediate_page,
        pages@.len() == 1 && request.page_number == 0 && !request.intermediate_page
            ==> pages@.last().page_number == 0 && !pages@.last().intermediate_page,
{
    several_pages_only_when_split(request, max_page_bytes as nat, pages@);
}

/// Two completions that are both larger than the limit, and agree in their commands and routing
/// fields, put the same commands on the same pages, whatever else they carry.
pub proof fn metadata_does_not_move_commands(
    a: RespondWorkflowTaskCompletedRequest,
    b: RespondWorkflowTaskCompletedRequest,
    max_page_bytes: usize,
    a_pages: Vec<RespondWorkflowTaskCompletedRequest>,
    b_pages: Vec<RespondWorkflowTaskCompletedRequest>,
)
    requires
        call_ensures(paginate_wft_completion, (a, max_page_bytes), a_pages),
        call_ensures(paginate_wft_completion, (b, max_page_bytes), b_pages),
        a.encoded_size() > max_page_bytes,
        b.encoded_size() > max_page_bytes,
        a.task_token@ == b.task_token@,
        a.identity@ == b.identity@,
        a.namespace@ == b.namespace@,
        a.commands@ == b.commands@,
    ensures
        all_commands(a_pages@) == all_commands(b_pages@),
{
    let max = max_page_bytes as nat;
    assert(page_overhead(a) == page_overhead(b));
    if is_split(a, max) {
        assert(is_split(b, max)) by {
            assert forall|i: int| #![trigger b.commands@[i]] 0 <= i < b.commands@.len() implies
                page_overhead(b) + command_room(b.commands@[i]) <= max by {
                assert(a.commands@[i] == b.commands@[i]);
            }
        }
        packing_is_unique(
            page_commands(a_pages@),
            page_commands(b_pages@),
            a.commands@,
            page_overhead(a),
            max,
        );
        assert(page_commands(a_pages@).len() == page_commands(b_pages@).len());
        assert forall|i: int| 0 <= i < a_pages@.len() implies all_commands(a_pages@)[i]
            == all_commands(b_pages@)[i] by {
            if i < a_pages@.len() - 1 {
                assert(page_commands(a_pages@)[i] == page_commands(b_pages@)[i]);
            } else {
                assert(a_pages@.last().commands@ =~= b_pages@.last().commands@);
            }
        }
    } else {
        assert(!is_split(b, max)) by {
            if is_split(b, max) {
                assert forall|i: int| #![trigger a.commands@[i]] 0 <= i < a.commands@.len() implies
                    page_overhead(a) + command_room(a.commands@[i]) <= max by {
                    assert(a.commands@[i] == b.commands@[i]);
                }
            }
        }
    }
    assert(all_commands(a_pages@) =~= all_commands(b_pages@));
}

/// A completion that is split under one limit has no more pages under a larger one.
pub proof fn larger_limit_needs_no_more_pages(
    request: RespondWorkflowTaskCompletedRequest,
    smaller: usize,
    larger: usize,
    pages: Vec<RespondWorkflowTaskCompletedRequest>,
    fewer: Vec<RespondWorkflowTaskCompletedRequest>,
)
    requires
        call_ensures(paginate_wft_completion, (request, smaller), pages),
        call_ensures(paginate_wft_completion, (request, larger), fewer),
        smaller <= larger,
        pages@.len() > 1,
    ensures
        fewer@.len() <= pages@.len(),
{
    several_pages_only_when_split(request, smaller as nat, pages@);
    if is_split(request, larger as nat) {
        packing_has_fewest_pages(
            page_commands(fewer@),
            page_commands(pages@),
            request.commands@,
            page_overhead(request),
            larger as nat,
        );
    }
}

} // verus!
