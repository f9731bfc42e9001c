//! The unique-id workload: every `generate` is answered with an identifier
//! that no other answer in the cluster carries.

use crate::message::Message;
use crate::node::{next_msg_id, Node};
use crate::text::{decimal, is_digit, lemma_decimal_digits, lemma_decimal_injective, u64_to_string};
use vstd::prelude::*;
use vstd::string::*;

verus! {

/// What clients ask.
#[derive(Debug, Clone, PartialEq, Eq)]
pub enum Request {
    Generate,
}

/// What the node answers.
#[derive(Debug, Clone, PartialEq, Eq)]
pub enum Response {
    GenerateOk { id: String },
}

/// The identifier made from a node's name and a message number: the name,
/// a hyphen, and the number in decimal.
pub open spec fn id_text(node_id: Seq<char>, msg_id: u32) -> Seq<char> {
    node_id + seq!['-'] + decimal(msg_id as nat)
}

/// The identifier made from the node's name and the number that its next
/// message will carry.
pub fn generate_id(node: &Node) -> (id: String)
    ensures
        id@ == id_text(node.id@, node.msg_id),
{
    proof {
        reveal_strlit("-");
    }
    let mut id = node.id.clone();
    id.append("-");
    assert("-"@ =~= seq!['-']);
    let digits = u64_to_string(node.msg_id as u64);
    id.append(digits.as_str());
    id
}

/// Answers `generate`. The identifier is made before the answer takes its
/// message number, so the next `generate` on this node gets another.
pub fn handle_msg(msg: &Message<Request>, node: &mut Node) -> (out: Message<Response>)
    ensures
        final(node).sent_reply(*old(node), out@, msg@),
        out@.payload matches Response::GenerateOk { id } && id@ == id_text(
            old(node).id@,
            old(node).msg_id,
        ),
{
    match msg.body.payload {
        Request::Generate => {
            let id = generate_id(node);
            node.reply(msg, Response::GenerateOk { id })
        },
    }
}

/// A hyphen is no digit.
proof fn lemma_hyphen_is_no_digit(c: char)
    requires
        is_digit(c),
    ensures
        c != '-',
{
}

/// Two identifiers are the same only if they were made from the same name
/// and the same number: neither two nodes nor two messages of one node
/// share an identifier.
pub proof fn lemma_ids_unique(node_a: Seq<char>, msg_a: u32, node_b: Seq<char>, msg_b: u32)
    requires
        id_text(node_a, msg_a) == id_text(node_b, msg_b),
    ensures
        node_a == node_b,
        msg_a == msg_b,
{
    let da = decimal(msg_a as nat);
    let db = decimal(msg_b as nat);
    let text = id_text(node_a, msg_a);
    lemma_decimal_digits(msg_a as nat);
    lemma_decimal_digits(msg_b as nat);
    assert(text.len() == node_a.len() + 1 + da.len());
    assert(text.len() == node_b.len() + 1 + db.len());
    assert(text[node_a.len() as int] == '-');
    assert(id_text(node_b, msg_b)[node_b.len() as int] == '-');
    if node_a.len() < node_b.len() {
        let i = node_b.len() - node_a.len() - 1;
        assert(text[node_b.len() as int] == da[i]);
        lemma_hyphen_is_no_digit(da[i]);
    } else if node_b.len() < node_a.len() {
        let i = node_a.len() - node_b.len() - 1;
        assert(id_text(node_b, msg_b)[node_a.len() as int] == db[i]);
        lemma_hyphen_is_no_digit(db[i]);
    } else {
        assert(node_a =~= text.subrange(0, node_a.len() as int));
        assert(node_b =~= id_text(node_b, msg_b).subrange(0, node_b.len() as int));
        assert(da =~= text.subrange(node_a.len() as int + 1, text.len() as int));
        assert(db =~= id_text(node_b, msg_b).subrange(node_b.len() as int + 1, text.len() as int));
        lemma_decimal_injective(msg_a as nat, msg_b as nat);
    }
}

/// Two `generate` in a row on one node are answered with different
/// identifiers.
pub proof fn lemma_next_id_differs(node_id: Seq<char>, msg_id: u32)
    ensures
        id_text(node_id, msg_id) != id_text(node_id, next_msg_id(msg_id)),
{
    if id_text(node_id, msg_id) == id_text(node_id, next_msg_id(msg_id)) {
        lemma_ids_unique(node_id, msg_id, node_id, next_msg_id(msg_id));
    }
}

} // verus!
