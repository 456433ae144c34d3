//! Tool calls and their results, on the way back to the model.
//!
//! The agentic loop records them as `function_call` and `function_call_output` items; the
//! Messages API takes them as `tool_use` blocks of the assistant and `tool_result` blocks of
//! the user.

use vstd::prelude::*;

use crate::anthropic::stream::{input_of_reading, tool_input};
use crate::json::{
    items_view, lemma_items_view, parsed_text, reading_view, Json, JsonView,
};
use crate::llm::Role;
use crate::text::str_eq;

verus! {

/// A block and whose message it belongs to.
pub struct BlockView {
    pub role: Role,
    pub block: JsonView,
}

/// The blocks of one message.
pub struct GroupView {
    pub role: Role,
    pub blocks: Seq<JsonView>,
}

/// A block and whose message it belongs to: the assistant's or the user's.
#[derive(Debug)]
pub struct RoleBlock {
    pub role: Role,
    pub block: Json,
}

impl View for RoleBlock {
    type V = BlockView;

    open spec fn view(&self) -> BlockView {
        BlockView { role: self.role, block: self.block@ }
    }
}

/// The blocks of a sequence, each by what it says.
pub open spec fn block_views(blocks: Seq<RoleBlock>) -> Seq<BlockView> {
    Seq::new(blocks.len(), |i: int| blocks[i]@)
}

/// A block of plain text.
pub open spec fn text_block(text: Seq<char>) -> JsonView {
    JsonView::Object(
        Map::empty().insert("type"@, JsonView::Text("text"@)).insert("text"@, JsonView::Text(text)),
    )
}

/// Every item has a type.
pub open spec fn all_typed(items: Seq<JsonView>) -> bool {
    forall|i: int| 0 <= i < items.len() ==> (#[trigger] items[i]).member("type"@) is Some
}

/// The content of a tool result: typed blocks as they are, and any other output as one block
/// of text. `reading` is what a JSON parser makes of the output.
pub open spec fn result_content(
    output: Seq<char>,
    reading: Result<JsonView, Seq<char>>,
) -> JsonView {
    match reading {
        Ok(JsonView::Array(items)) => if all_typed(items) {
            JsonView::Array(items)
        } else {
            JsonView::Array(seq![text_block(output)])
        },
        _ => JsonView::Array(seq![text_block(output)]),
    }
}

/// A tool call of the assistant.
pub open spec fn tool_use_block(id: Seq<char>, name: Seq<char>, input: JsonView) -> JsonView {
    JsonView::Object(
        Map::empty().insert("type"@, JsonView::Text("tool_use"@)).insert(
            "id"@,
            JsonView::Text(id),
        ).insert("name"@, JsonView::Text(name)).insert("input"@, input),
    )
}

/// The result of a tool call, which the user's side brings.
pub open spec fn tool_result_block(id: Seq<char>, content: JsonView) -> JsonView {
    JsonView::Object(
        Map::empty().insert("type"@, JsonView::Text("tool_result"@)).insert(
            "tool_use_id"@,
            JsonView::Text(id),
        ).insert("content"@, content),
    )
}

/// The text of a member, or another text where there is none.
pub open spec fn member_text_or(item: JsonView, key: Seq<char>, other: Seq<char>) -> Seq<char> {
    match item.member_text(key) {
        Some(s) => s,
        None => other,
    }
}

/// The block that an item stands for, if it stands for one.
pub open spec fn block_of_item(item: JsonView) -> Option<BlockView> {
    let item_type = member_text_or(item, "type"@, Seq::empty());
    let call_id = member_text_or(item, "call_id"@, Seq::empty());
    if item_type == "function_call"@ {
        let name = member_text_or(item, "name"@, Seq::empty());
        let arguments = member_text_or(item, "arguments"@, "{}"@);
        let input = input_of_reading(parsed_text(arguments));
        Some(BlockView { role: Role::Assistant, block: tool_use_block(call_id, name, input) })
    } else if item_type == "function_call_output"@ {
        let output = member_text_or(item, "output"@, Seq::empty());
        let content = result_content(output, parsed_text(output));
        Some(BlockView { role: Role::User, block: tool_result_block(call_id, content) })
    } else {
        None
    }
}

/// The blocks that a sequence of items stands for, in order.
pub open spec fn blocks_of_items(items: Seq<JsonView>) -> Seq<BlockView>
    decreases items.len(),
{
    if items.len() == 0 {
        Seq::empty()
    } else {
        match block_of_item(items.last()) {
            Some(block) => blocks_of_items(items.drop_last()).push(block),
            None => blocks_of_items(items.drop_last()),
        }
    }
}

/// The blocks in groups: each run of blocks of one side makes one group.
pub open spec fn grouped(blocks: Seq<BlockView>) -> Seq<GroupView>
    decreases blocks.len(),
{
    if blocks.len() == 0 {
        Seq::empty()
    } else {
        let before = grouped(blocks.drop_last());
        let last = blocks.last();
        if before.len() > 0 && before.last().role == last.role {
            before.drop_last().push(
                GroupView { role: last.role, blocks: before.last().blocks.push(last.block) },
            )
        } else {
            before.push(GroupView { role: last.role, blocks: seq![last.block] })
        }
    }
}

/// The name of a role on the wire.
pub open spec fn role_name(role: Role) -> Seq<char> {
    match role {
        Role::Assistant => "assistant"@,
        Role::User => "user"@,
        Role::System => "system"@,
    }
}

/// A message with this content.
pub open spec fn message_json(role: Role, content: Seq<JsonView>) -> JsonView {
    JsonView::Object(
        Map::empty().insert("role"@, JsonView::Text(role_name(role))).insert(
            "content"@,
            JsonView::Array(content),
        ),
    )
}

/// A message for each group.
pub open spec fn group_messages(groups: Seq<GroupView>) -> Seq<JsonView> {
    Seq::new(groups.len(), |i: int| message_json(groups[i].role, groups[i].blocks))
}

/// The messages that a sequence of items stands for.
pub open spec fn converted_items(items: Seq<JsonView>) -> Seq<JsonView> {
    group_messages(grouped(blocks_of_items(items)))
}

/// A block of plain text.
pub fn make_text_block(text: &str) -> (r: Json)
    ensures
        r@ == text_block(text@),
{
    let mut block = Json::object();
    block.set("type", Json::text("text"));
    block.set("text", Json::text(text));
    block
}

/// Whether every item has a type.
fn check_typed(items: &Vec<Json>) -> (r: bool)
    ensures
        r == all_typed(items_view(items@)),
{
    proof {
        lemma_items_view(items@);
    }
    let ghost views = items_view(items@);
    let mut i: usize = 0;
    while i < items.len()
        invariant
            i <= items@.len(),
            views == items_view(items@),
            views.len() == items@.len(),
            forall|j: int| 0 <= j < items@.len() ==> views[j] == (#[trigger] items@[j])@,
            forall|j: int| 0 <= j < i ==> (#[trigger] views[j]).member("type"@) is Some,
        decreases items@.len() - i,
    {
        if items[i].get("type").is_none() {
            proof {
                assert(views[i as int].member("type"@) is None);
            }
            return false;
        }
        i = i + 1;
    }
    true
}

/// The content of a tool result, where `reading` is what a JSON parser makes of the output.
pub fn tool_result_content(output: &str, reading: Result<Json, String>) -> (r: Json)
    ensures
        r@ == result_content(output@, reading_view(reading)),
{
    match reading {
        Ok(Json::Array(items)) => {
            if check_typed(&items) {
                return Json::Array(items);
            }
        },
        _ => {},
    }
    let mut blocks: Vec<Json> = Vec::new();
    blocks.push(make_text_block(output));
    proof {
        lemma_items_view(blocks@);
        assert(items_view(blocks@) =~= seq![text_block(output@)]);
    }
    Json::Array(blocks)
}

/// Parses the output of a tool for `tool_result.content`.
///
/// Where the output is a JSON array in which every element has a `type`, the blocks are
/// forwarded verbatim, even if there are none. Otherwise the raw string is wrapped in a plain text block.
pub fn parse_tool_result_content(output: &str) -> (r: Json)
    ensures
        r@ == result_content(output@, parsed_text(output@)),
{
    tool_result_content(output, Json::parse(output))
}

/// A tool call of the assistant.
pub fn make_tool_use_block(id: &str, name: &str, input: Json) -> (r: Json)
    ensures
        r@ == tool_use_block(id@, name@, input@),
{
    let mut block = Json::object();
    block.set("type", Json::text("tool_use"));
    block.set("id", Json::text(id));
    block.set("name", Json::text(name));
    block.set("input", input);
    block
}

/// The result of a tool call.
pub fn make_tool_result_block(id: &str, content: Json) -> (r: Json)
    ensures
        r@ == tool_result_block(id@, content@),
{
    let mut block = Json::object();
    block.set("type", Json::text("tool_result"));
    block.set("tool_use_id", Json::text(id));
    block.set("content", content);
    block
}

/// The text of a member, or another text where there is none.
fn get_str_or<'a>(item: &'a Json, key: &str, other: &'a str) -> (r: &'a str)
    ensures
        r@ == member_text_or(item@, key@, other@),
{
    match item.get_str(key) {
        Some(s) => s,
        None => other,
    }
}

/// The block that an item stands for, if it stands for one.
pub fn convert_item(item: &Json) -> (r: Option<RoleBlock>)
    ensures
        match r {
            Some(block) => block_of_item(item@) == Some(block@),
            None => block_of_item(item@) is None,
        },
{
    proof {
        reveal_strlit("");
        assert(""@ =~= Seq::<char>::empty());
    }
    let item_type = get_str_or(item, "type", "");
    if str_eq(item_type, "function_call") {
        let call_id = get_str_or(item, "call_id", "");
        let name = get_str_or(item, "name", "");
        let arguments = get_str_or(item, "arguments", "{}");
        let input = tool_input(Json::parse(arguments));
        Some(
            RoleBlock { role: Role::Assistant, block: make_tool_use_block(call_id, name, input) },
        )
    } else if str_eq(item_type, "function_call_output") {
        let call_id = get_str_or(item, "call_id", "");
        let output = get_str_or(item, "output", "");
        let content = parse_tool_result_content(output);
        Some(RoleBlock { role: Role::User, block: make_tool_result_block(call_id, content) })
    } else {
        None
    }
}

/// A message with this content.
pub fn make_message(role: Role, content: Vec<Json>) -> (r: Json)
    ensures
        r@ == message_json(role, items_view(content@)),
{
    let name: &'static str = match role {
        Role::Assistant => "assistant",
        Role::User => "user",
        Role::System => "system",
    };
    let mut message = Json::object();
    message.set("role", Json::text(name));
    message.set("content", Json::Array(content));
    message
}

/// Makes one message out of each run of blocks of one side.
pub fn group_blocks(blocks: &Vec<RoleBlock>) -> (r: Vec<Json>)
    ensures
        items_view(r@) == group_messages(grouped(block_views(blocks@))),
{
    let mut result: Vec<Json> = Vec::new();
    let mut role: Role = Role::User;
    let mut pending: Vec<Json> = Vec::new();
    let mut i: usize = 0;
    let ghost all = block_views(blocks@);
    let ghost mut done: Seq<GroupView> = Seq::empty();
    proof {
        assert(items_view(result@) =~= group_messages(done));
    }
    while i < blocks.len()
        invariant
            i <= blocks@.len(),
            all == block_views(blocks@),
            items_view(result@) == group_messages(done),
            pending@.len() == items_view(pending@).len(),
            grouped(all.take(i as int)) == (if pending@.len() == 0 {
                done
            } else {
                done.push(GroupView { role, blocks: items_view(pending@) })
            }),
            pending@.len() == 0 ==> i == 0 && done.len() == 0,
            i == 0 ==> pending@.len() == 0,
        decreases blocks@.len() - i,
    {
        let ghost before = grouped(all.take(i as int));
        let ghost last = all[i as int];
        proof {
            assert(all.take(i + 1).drop_last() =~= all.take(i as int));
            assert(all.take(i + 1).last() == last);
        }
        if pending.len() > 0 && blocks[i].role != role {
            let ghost flushed = GroupView { role, blocks: items_view(pending@) };
            let mut content: Vec<Json> = Vec::new();
            std::mem::swap(&mut content, &mut pending);
            let ghost earlier = result@;
            result.push(make_message(role, content));
            proof {
                assert(result@.drop_last() =~= earlier);
                assert(items_view(result@) =~= group_messages(done.push(flushed)));
                done = done.push(flushed);
            }
        }
        role = blocks[i].role;
        let ghost held = pending@;
        pending.push(blocks[i].block.clone());
        proof {
            lemma_items_view(held);
            lemma_items_view(pending@);
            assert(pending@.drop_last() =~= held);
            let group = GroupView { role, blocks: items_view(pending@) };
            assert(items_view(pending@) == items_view(held).push(last.block));
            if held.len() == 0 {
                assert(items_view(pending@) =~= seq![last.block]);
                assert(grouped(all.take(i + 1)) =~= done.push(group));
            } else {
                assert(before.drop_last() =~= done);
                assert(grouped(all.take(i + 1)) =~= done.push(group));
            }
        }
        i = i + 1;
    }
    proof {
        assert(all.take(i as int) =~= all);
    }
    if pending.len() > 0 {
        let ghost flushed = GroupView { role, blocks: items_view(pending@) };
        let ghost earlier = result@;
        result.push(make_message(role, pending));
        proof {
            assert(result@.drop_last() =~= earlier);
            assert(items_view(result@) =~= group_messages(done.push(flushed)));
        }
    }
    result
}

/// Converts recorded items to messages.
///
/// Groups consecutive `function_call` items into an assistant message with `tool_use` blocks,
/// and `function_call_output` items into a user message with `tool_result` blocks. An item of
/// another type is ignored.
pub fn convert_raw_input_items(items: &[Json]) -> (r: Vec<Json>)
    ensures
        items_view(r@) == converted_items(items_view(items@)),
{
    let mut blocks: Vec<RoleBlock> = Vec::new();
    let mut i: usize = 0;
    let ghost views = items_view(items@);
    proof {
        lemma_items_view(items@);
    }
    while i < items.len()
        invariant
            i <= items@.len(),
            views == items_view(items@),
            views == Seq::new(items@.len(), |j: int| items@[j]@),
            block_views(blocks@) == blocks_of_items(views.take(i as int)),
        decreases items@.len() - i,
    {
        let ghost before = blocks@;
        proof {
            assert(views.take(i + 1).drop_last() =~= views.take(i as int));
            assert(views.take(i + 1).last() == items@[i as int]@);
        }
        match convert_item(&items[i]) {
            Some(block) => {
                blocks.push(block);
                proof {
                    assert(block_views(blocks@) =~= block_views(before).push(block@));
                }
            },
            None => {},
        }
        i = i + 1;
    }
    proof {
        assert(views.take(i as int) =~= views);
    }
    group_blocks(&blocks)
}

/// The blocks of a group, each with the group's role.
pub open spec fn blocks_of_group(group: GroupView) -> Seq<BlockView> {
    Seq::new(group.blocks.len(), |i: int| BlockView { role: group.role, block: group.blocks[i] })
}

/// The blocks of all groups, in order.
pub open spec fn blocks_of_groups(groups: Seq<GroupView>) -> Seq<BlockView>
    decreases groups.len(),
{
    if groups.len() == 0 {
        Seq::empty()
    } else {
        blocks_of_groups(groups.drop_last()) + blocks_of_group(groups.last())
    }
}

/// Grouping loses no block, adds none and keeps their order and their roles.
pub proof fn law_grouping_keeps_blocks(blocks: Seq<BlockView>)
    ensures
        blocks_of_groups(grouped(blocks)) == blocks,
    decreases blocks.len(),
{
    if blocks.len() > 0 {
        let rest = blocks.drop_last();
        let last = blocks.last();
        let before = grouped(rest);
        law_grouping_keeps_blocks(rest);
        if before.len() > 0 && before.last().role == last.role {
            let group = GroupView {
                role: last.role,
                blocks: before.last().blocks.push(last.block),
            };
            assert(grouped(blocks).drop_last() =~= before.drop_last());
            assert(blocks_of_group(group) =~= blocks_of_group(before.last()).push(last));
            assert(blocks_of_groups(grouped(blocks)) =~= blocks_of_groups(before).push(last));
        } else {
            let group = GroupView { role: last.role, blocks: seq![last.block] };
            assert(grouped(blocks).drop_last() =~= before);
            assert(blocks_of_group(group) =~= seq![last]);
            assert(blocks_of_groups(grouped(blocks)) =~= blocks_of_groups(before).push(last));
        }
        assert(rest.push(last) =~= blocks);
    }
}

/// The messages alternate between the assistant and the user, and none of them is empty.
pub proof fn law_groups_alternate(blocks: Seq<BlockView>)
    ensures
        forall|i: int| 0 <= i < grouped(blocks).len() ==> (#[trigger] grouped(blocks)[i]).blocks.len() > 0,
        forall|i: int, j: int|
            0 <= i && j == i + 1 && j < grouped(blocks).len() ==> (
            #[trigger] grouped(blocks)[i]).role != (#[trigger] grouped(blocks)[j]).role,
    decreases blocks.len(),
{
    if blocks.len() > 0 {
        let before = grouped(blocks.drop_last());
        let groups = grouped(blocks);
        law_groups_alternate(blocks.drop_last());
        assert forall|i: int| 0 <= i < groups.len() implies (#[trigger] groups[i]).blocks.len()
            > 0 by {
            if i < groups.len() - 1 {
                assert(groups[i] == before[i]);
            }
        }
        assert forall|i: int, j: int| 0 <= i && j == i + 1 && j < groups.len() implies (
        #[trigger] groups[i]).role != (#[trigger] groups[j]).role by {
            assert(groups[i] == before[i]);
            if j < before.len() {
                assert(groups[j].role == before[j].role);
                assert(before[i].role != before[j].role);
            }
        }
    }
}

/// Every block that recorded items stand for is the assistant's or the user's, so no message
/// of another role comes out of them.
pub proof fn law_blocks_have_a_speaker(items: Seq<JsonView>)
    ensures
        forall|i: int|
            0 <= i < blocks_of_items(items).len() ==> (#[trigger] blocks_of_items(items)[i]).role
                != Role::System,
    decreases items.len(),
{
    if items.len() > 0 {
        law_blocks_have_a_speaker(items.drop_last());
    }
}

/// Recording more items never changes the messages that came before the last one.
pub proof fn law_conversion_extends(items: Seq<JsonView>, more: JsonView)
    ensures
        ({
            let before = converted_items(items);
            let after = converted_items(items.push(more));
            &&& before.len() <= after.len() <= before.len() + 1
            &&& forall|i: int|
                0 <= i < before.len() - 1 ==> #[trigger] after[i] == before[i]
        }),
{
    let longer = items.push(more);
    assert(longer.drop_last() =~= items);
    let blocks = blocks_of_items(items);
    match block_of_item(more) {
        Some(block) => {
            assert(blocks.push(block).drop_last() =~= blocks);
        },
        None => {},
    }
}

/// The keys of the blocks are different texts.
proof fn lemma_block_keys_differ()
    ensures
        "type"@ != "text"@,
        "type"@ != "id"@,
        "type"@ != "name"@,
        "type"@ != "input"@,
        "id"@ != "name"@,
        "id"@ != "input"@,
        "name"@ != "input"@,
        "type"@ != "tool_use_id"@,
        "type"@ != "content"@,
        "tool_use_id"@ != "content"@,
        "role"@ != "content"@,
        "function_call"@ != "function_call_output"@,
        "user"@ != "assistant"@,
        "system"@ != "assistant"@,
        "system"@ != "user"@,
{
    reveal_strlit("type");
    reveal_strlit("text");
    reveal_strlit("id");
    reveal_strlit("name");
    reveal_strlit("input");
    reveal_strlit("tool_use_id");
    reveal_strlit("content");
    reveal_strlit("role");
    reveal_strlit("function_call");
    reveal_strlit("function_call_output");
    reveal_strlit("user");
    reveal_strlit("assistant");
    reveal_strlit("system");
    assert("type"@.len() == 4 && "text"@.len() == 4 && "id"@.len() == 2 && "name"@.len() == 4
        && "input"@.len() == 5 && "tool_use_id"@.len() == 11 && "content"@.len() == 7
        && "role"@.len() == 4);
    assert("type"@[1] == 'y' && "text"@[1] == 'e' && "type"@[0] == 't' && "name"@[0] == 'n');
    assert("function_call"@.len() == 13 && "function_call_output"@.len() == 20);
    assert("user"@.len() == 4 && "assistant"@.len() == 9 && "system"@.len() == 6);
}

/// A block of text holds the text, a tool call its id, its name and its input, and a tool result
/// the id of its call and its content; each holds its type beside them and nothing else.
pub proof fn law_blocks_hold_what_they_are_made_of(
    text: Seq<char>,
    id: Seq<char>,
    name: Seq<char>,
    value: JsonView,
)
    ensures
        ({
            let plain = text_block(text);
            let call = tool_use_block(id, name, value);
            let result = tool_result_block(id, value);
            &&& plain.member("type"@) == Some(JsonView::Text("text"@))
            &&& plain.member("text"@) == Some(JsonView::Text(text))
            &&& plain->Object_0.dom() == set!["type"@, "text"@]
            &&& call.member("type"@) == Some(JsonView::Text("tool_use"@))
            &&& call.member("id"@) == Some(JsonView::Text(id))
            &&& call.member("name"@) == Some(JsonView::Text(name))
            &&& call.member("input"@) == Some(value)
            &&& call->Object_0.dom() == set!["type"@, "id"@, "name"@, "input"@]
            &&& result.member("type"@) == Some(JsonView::Text("tool_result"@))
            &&& result.member("tool_use_id"@) == Some(JsonView::Text(id))
            &&& result.member("content"@) == Some(value)
            &&& result->Object_0.dom() == set!["type"@, "tool_use_id"@, "content"@]
        }),
{
    lemma_block_keys_differ();
    assert(text_block(text)->Object_0.dom() =~= set!["type"@, "text"@]);
    assert(tool_use_block(id, name, value)->Object_0.dom() =~= set![
        "type"@,
        "id"@,
        "name"@,
        "input"@,
    ]);
    assert(tool_result_block(id, value)->Object_0.dom() =~= set![
        "type"@,
        "tool_use_id"@,
        "content"@,
    ]);
}

/// An array in which every element has a type is handed on as it is: none of its elements is
/// lost, changed or moved, and none is added. Any other output comes back word for word in one
/// block of text.
pub proof fn law_tool_output_is_kept(output: Seq<char>, reading: Result<JsonView, Seq<char>>)
    ensures
        ({
            let content = result_content(output, reading);
            let forwarded = reading matches Ok(JsonView::Array(items)) && (forall|i: int|
                0 <= i < items.len() ==> (#[trigger] items[i]).member("type"@) is Some);
            &&& content is Array
            &&& forwarded ==> {
                let items = reading->Ok_0->Array_0;
                &&& content->Array_0.len() == items.len()
                &&& forall|i: int|
                    0 <= i < items.len() ==> #[trigger] content->Array_0[i] == items[i]
            }
            &&& !forwarded ==> {
                &&& content->Array_0.len() == 1
                &&& content->Array_0[0].member("type"@) == Some(JsonView::Text("text"@))
                &&& content->Array_0[0].member("text"@) == Some(JsonView::Text(output))
            }
        }),
{
    lemma_block_keys_differ();
}

/// A recorded call stands for a tool call of the assistant with its own id and name and the input
/// that its arguments read as. A recorded output stands for a result on the user's side, under
/// the id of its call. An item of another type stands for nothing.
pub proof fn law_items_stand_for_blocks(item: JsonView)
    ensures
        ({
            let kind = item.member_text("type"@);
            let made = block_of_item(item);
            &&& kind == Some("function_call"@) ==> {
                &&& made is Some
                &&& made->0.role == Role::Assistant
                &&& made->0.block.member("type"@) == Some(JsonView::Text("tool_use"@))
                &&& item.member_text("call_id"@) matches Some(id) ==> made->0.block.member("id"@)
                    == Some(JsonView::Text(id))
                &&& item.member_text("name"@) matches Some(name) ==> made->0.block.member("name"@)
                    == Some(JsonView::Text(name))
                &&& item.member_text("arguments"@) matches Some(arguments) ==> {
                    &&& parsed_text(arguments) matches Ok(input) ==> made->0.block.member(
                        "input"@,
                    ) == Some(input)
                    &&& parsed_text(arguments) is Err ==> made->0.block.member("input"@) == Some(
                        JsonView::Object(Map::empty()),
                    )
                }
            }
            &&& kind == Some("function_call_output"@) ==> {
                &&& made is Some
                &&& made->0.role == Role::User
                &&& made->0.block.member("type"@) == Some(JsonView::Text("tool_result"@))
                &&& item.member_text("call_id"@) matches Some(id) ==> made->0.block.member(
                    "tool_use_id"@,
                ) == Some(JsonView::Text(id))
                &&& item.member_text("output"@) matches Some(output) ==> made->0.block.member(
                    "content"@,
                ) == Some(result_content(output, parsed_text(output)))
            }
            &&& kind != Some("function_call"@) && kind != Some("function_call_output"@)
                ==> made is None
        }),
{
    lemma_block_keys_differ();
    reveal_strlit("function_call");
    reveal_strlit("function_call_output");
    assert("function_call"@.len() == 13 && "function_call_output"@.len() == 20);
}

/// What an item leaves out, or holds as something else than text, is empty; the arguments of a
/// call are then those of a call without any. An item without a type stands for nothing.
pub proof fn law_left_out_members_have_defaults(item: JsonView)
    ensures
        ({
            let made = block_of_item(item);
            &&& item.member_text("type"@) is None ==> made is None
            &&& made matches Some(block) ==> {
                &&& item.member_text("call_id"@) is None && block.role == Role::Assistant
                    ==> block.block.member("id"@) == Some(JsonView::Text(Seq::empty()))
                &&& item.member_text("call_id"@) is None && block.role == Role::User
                    ==> block.block.member("tool_use_id"@) == Some(JsonView::Text(Seq::empty()))
                &&& item.member_text("name"@) is None && block.role == Role::Assistant
                    ==> block.block.member("name"@) == Some(JsonView::Text(Seq::empty()))
                &&& item.member_text("arguments"@) is None && block.role == Role::Assistant
                    ==> block.block.member("input"@) == Some(
                    input_of_reading(parsed_text("{}"@)),
                )
                &&& item.member_text("output"@) is None && block.role == Role::User
                    ==> block.block.member("content"@) == Some(
                    result_content(Seq::empty(), parsed_text(Seq::empty())),
                )
            }
        }),
{
    lemma_block_keys_differ();
    reveal_strlit("function_call");
    reveal_strlit("function_call_output");
    assert("function_call"@.len() == 13 && "function_call_output"@.len() == 20);
}

/// Items one behind the other stand for the blocks of the first and then those of the second;
/// one item stands for its own block or for none.
pub proof fn law_blocks_follow_the_items(a: Seq<JsonView>, b: Seq<JsonView>)
    ensures
        blocks_of_items(a + b) == blocks_of_items(a) + blocks_of_items(b),
        b.len() == 1 ==> blocks_of_items(b) == match block_of_item(b[0]) {
            Some(block) => seq![block],
            None => Seq::empty(),
        },
    decreases b.len(),
{
    if b.len() == 0 {
        assert(a + b =~= a);
        assert(blocks_of_items(a) + blocks_of_items(b) =~= blocks_of_items(a));
    } else {
        law_blocks_follow_the_items(a, b.drop_last());
        assert((a + b).drop_last() =~= a + b.drop_last());
        assert(blocks_of_items(a + b) =~= blocks_of_items(a) + blocks_of_items(b));
        if b.len() == 1 {
            assert(b.drop_last() =~= Seq::empty());
            assert(blocks_of_items(b) =~= match block_of_item(b[0]) {
                Some(block) => seq![block],
                None => Seq::empty(),
            });
        }
    }
}

/// A message holds the name of its role and its content, and nothing else; each role has its own
/// name.
pub proof fn law_messages_hold_role_and_content(role: Role, content: Seq<JsonView>)
    ensures
        ({
            let message = message_json(role, content);
            &&& message.member("role"@) == Some(
                JsonView::Text(
                    match role {
                        Role::User => "user"@,
                        Role::Assistant => "assistant"@,
                        Role::System => "system"@,
                    },
                ),
            )
            &&& message.member("content"@) == Some(JsonView::Array(content))
            &&& message->Object_0.dom() == set!["role"@, "content"@]
        }),
{
    lemma_block_keys_differ();
    assert(message_json(role, content)->Object_0.dom() =~= set!["role"@, "content"@]);
}

/// The blocks that a list of messages holds, in order, each with whose message it is in.
pub open spec fn blocks_in_messages(messages: Seq<JsonView>) -> Seq<(JsonView, JsonView)>
    decreases messages.len(),
{
    if messages.len() == 0 {
        Seq::empty()
    } else {
        let last = messages.last();
        let content = last.member("content"@)->0->Array_0;
        blocks_in_messages(messages.drop_last()) + Seq::new(
            content.len(),
            |i: int| (last.member("role"@)->0, content[i]),
        )
    }
}

/// The blocks of a list with the names of their roles.
pub open spec fn named_blocks(blocks: Seq<BlockView>) -> Seq<(JsonView, JsonView)> {
    Seq::new(
        blocks.len(),
        |i: int|
            (
                JsonView::Text(
                    if blocks[i].role == Role::User {
                        "user"@
                    } else {
                        "assistant"@
                    },
                ),
                blocks[i].block,
            ),
    )
}

proof fn lemma_grouped_messages_hold_blocks(groups: Seq<GroupView>)
    requires
        forall|i: int| 0 <= i < groups.len() ==> (#[trigger] groups[i]).role != Role::System,
    ensures
        blocks_in_messages(group_messages(groups)) == named_blocks(blocks_of_groups(groups)),
    decreases groups.len(),
{
    let messages = group_messages(groups);
    if groups.len() == 0 {
        assert(blocks_in_messages(messages) =~= named_blocks(blocks_of_groups(groups)));
    } else {
        let rest = groups.drop_last();
        assert forall|i: int| 0 <= i < rest.len() implies (#[trigger] rest[i]).role
            != Role::System by {
            assert(rest[i] == groups[i]);
        }
        lemma_grouped_messages_hold_blocks(rest);
        assert(messages.drop_last() =~= group_messages(rest));
        let last = groups.last();
        assert(last == groups[groups.len() - 1]);
        law_messages_hold_role_and_content(last.role, last.blocks);
        assert(messages.last() == message_json(last.role, last.blocks));
        assert(blocks_in_messages(messages) =~= named_blocks(blocks_of_groups(groups)));
    }
}

proof fn lemma_groups_have_a_speaker(blocks: Seq<BlockView>)
    requires
        forall|i: int| 0 <= i < blocks.len() ==> (#[trigger] blocks[i]).role != Role::System,
    ensures
        forall|i: int|
            0 <= i < grouped(blocks).len() ==> (#[trigger] grouped(blocks)[i]).role != Role::System,
    decreases blocks.len(),
{
    if blocks.len() > 0 {
        let rest = blocks.drop_last();
        assert forall|i: int| 0 <= i < rest.len() implies (#[trigger] rest[i]).role
            != Role::System by {
            assert(rest[i] == blocks[i]);
        }
        lemma_groups_have_a_speaker(rest);
        let before = grouped(rest);
        let groups = grouped(blocks);
        assert(blocks.last() == blocks[blocks.len() - 1]);
        assert forall|i: int| 0 <= i < groups.len() implies (#[trigger] groups[i]).role
            != Role::System by {
            if i < before.len() - 1 {
                assert(groups[i] == before[i]);
            } else if i < before.len() {
                assert(before[i].role != Role::System);
            }
        }
    }
}

/// The messages that recorded items are sent as hold the blocks of the items, every one of them
/// once, in the order of the items and each on its own side: calls in messages of the assistant
/// and outputs in messages of the user.
pub proof fn law_recorded_items_are_all_sent(items: Seq<JsonView>)
    ensures
        blocks_in_messages(converted_items(items)) == named_blocks(blocks_of_items(items)),
{
    let blocks = blocks_of_items(items);
    law_blocks_have_a_speaker(items);
    lemma_groups_have_a_speaker(blocks);
    lemma_grouped_messages_hold_blocks(grouped(blocks));
    law_grouping_keeps_blocks(blocks);
}

/// The messages that recorded items are sent as alternate: no two that follow one another are of
/// the same side, and none is empty.
pub proof fn law_sent_messages_alternate(items: Seq<JsonView>, i: int)
    requires
        0 <= i < converted_items(items).len(),
    ensures
        converted_items(items)[i].member("content"@) matches Some(JsonView::Array(content))
            && content.len() > 0,
        i + 1 < converted_items(items).len() ==> converted_items(items)[i].member("role"@)
            != converted_items(items)[i + 1].member("role"@),
{
    let blocks = blocks_of_items(items);
    let groups = grouped(blocks);
    lemma_block_keys_differ();
    law_groups_alternate(blocks);
    law_blocks_have_a_speaker(items);
    lemma_groups_have_a_speaker(blocks);
    law_messages_hold_role_and_content(groups[i].role, groups[i].blocks);
    if i + 1 < groups.len() {
        law_messages_hold_role_and_content(groups[i + 1].role, groups[i + 1].blocks);
        assert(groups[i].role != groups[i + 1].role);
    }
}

}
