use vstd::prelude::*;
use crate::message::ChatMessage;

verus! {

/// `a` was sent strictly before `b`.
pub open spec fn sent_before(a: ChatMessage, b: ChatMessage) -> bool {
    a.sent_secs < b.sent_secs || (a.sent_secs == b.sent_secs && a.sent_nanos < b.sent_nanos)
}

/// In the chat area, message `i` of `msgs` stands above message `j`: it was
/// sent earlier, or at the same moment and came first in the fetched list.
pub open spec fn shown_above(msgs: Seq<ChatMessage>, i: int, j: int) -> bool {
    sent_before(msgs[i], msgs[j]) || (!sent_before(msgs[j], msgs[i]) && i < j)
}

/// `order` lists the positions of `msgs` in the order the chat area shows
/// them: oldest first, and messages sent at the same moment in the order
/// they were fetched. Such an order is a permutation of the positions and
/// is unique (see `lemma_chat_order_is_permutation` and
/// `lemma_chat_order_unique`).
pub open spec fn is_chat_order(msgs: Seq<ChatMessage>, order: Seq<usize>) -> bool {
    &&& order.len() == msgs.len()
    &&& forall|k: int| 0 <= k < order.len() ==> #[trigger] order[k] < msgs.len()
    &&& forall|k1: int, k2: int|
        0 <= k1 < k2 < order.len() ==> shown_above(msgs, order[k1] as int, order[k2] as int)
}

fn sent_after(a: &ChatMessage, b: &ChatMessage) -> (r: bool)
    ensures
        r == sent_before(*b, *a),
{
    b.sent_secs < a.sent_secs || (b.sent_secs == a.sent_secs && b.sent_nanos < a.sent_nanos)
}

/// The order in which the chat area shows `msgs` (a stable sort by the
/// moment each message was sent).
pub fn chat_order(msgs: &Vec<ChatMessage>) -> (order: Vec<usize>)
    ensures
        is_chat_order(msgs@, order@),
{
    let n = msgs.len();
    let mut order: Vec<usize> = Vec::new();
    let mut i: usize = 0;
    while i < n
        invariant
            i <= n,
            n == msgs.len(),
            order.len() == i,
            forall|k: int| 0 <= k < order.len() ==> #[trigger] order[k] < i,
            forall|k1: int, k2: int|
                0 <= k1 < k2 < order.len() ==> shown_above(msgs@, order[k1] as int, order[k2] as int),
        decreases n - i,
    {
        let mut pos: usize = 0;
        while pos < order.len() && !sent_after(&msgs[order[pos]], &msgs[i])
            invariant
                i < n,
                n == msgs.len(),
                order.len() == i,
                pos <= order.len(),
                forall|k: int| 0 <= k < order.len() ==> #[trigger] order[k] < i,
                forall|k: int| 0 <= k < pos ==> !sent_before(msgs@[i as int], #[trigger] msgs@[order[k] as int]),
            decreases order.len() - pos,
        {
            pos = pos + 1;
        }
        let ghost old_order = order@;
        order.insert(pos, i);
        assert forall|k1: int, k2: int|
            0 <= k1 < k2 < order.len() implies shown_above(msgs@, order[k1] as int, order[k2] as int) by {
            if k2 < pos {
                assert(order[k1] == old_order[k1] && order[k2] == old_order[k2]);
            } else if k2 == pos {
                assert(order[k1] == old_order[k1]);
                assert(!sent_before(msgs@[i as int], msgs@[old_order[k1] as int]));
            } else if k1 < pos {
                assert(order[k1] == old_order[k1] && order[k2] == old_order[k2 - 1]);
            } else if k1 == pos {
                assert(order[k2] == old_order[k2 - 1]);
                assert(sent_before(msgs@[i as int], msgs@[old_order[pos as int] as int]));
                if k2 - 1 > pos {
                    assert(shown_above(msgs@, old_order[pos as int] as int, old_order[k2 - 1] as int));
                }
            } else {
                assert(order[k1] == old_order[k1 - 1] && order[k2] == old_order[k2 - 1]);
            }
        }
        i = i + 1;
    }
    order
}

/// Every chat order lists each position of the messages exactly once.
pub proof fn lemma_chat_order_is_permutation(msgs: Seq<ChatMessage>, order: Seq<usize>)
    requires
        is_chat_order(msgs, order),
    ensures
        order.no_duplicates(),
        forall|j: usize| j < msgs.len() ==> #[trigger] order.contains(j),
{
    assert forall|k1: int, k2: int| 0 <= k1 < order.len() && 0 <= k2 < order.len() && k1 != k2
        implies order[k1] != order[k2] by {
        if k1 < k2 {
            assert(shown_above(msgs, order[k1] as int, order[k2] as int));
        } else {
            assert(shown_above(msgs, order[k2] as int, order[k1] as int));
        }
    }
    let ints = order.map_values(|x: usize| x as int);
    assert(ints.no_duplicates()) by {
        assert forall|k1: int, k2: int| 0 <= k1 < ints.len() && 0 <= k2 < ints.len() && k1 != k2
            implies ints[k1] != ints[k2] by {
            assert(order[k1] != order[k2]);
        }
    }
    ints.unique_seq_to_set();
    vstd::set_lib::lemma_int_range(0, msgs.len() as int);
    let range = vstd::set_lib::set_int_range(0, msgs.len() as int);
    assert(ints.to_set().subset_of(range)) by {
        assert forall|x: int| ints.to_set().contains(x) implies range.contains(x) by {
            let k = choose|k: int| 0 <= k < ints.len() && ints[k] == x;
            assert(order[k] < msgs.len());
        }
    }
    vstd::set_lib::lemma_subset_equality(ints.to_set(), range);
    assert forall|j: usize| j < msgs.len() implies #[trigger] order.contains(j) by {
        assert(range.contains(j as int));
        assert(ints.to_set().contains(j as int));
        let k = choose|k: int| 0 <= k < ints.len() && ints[k] == j as int;
        assert(order[k] == j);
    }
}

proof fn lemma_chat_orders_agree_below(msgs: Seq<ChatMessage>, o1: Seq<usize>, o2: Seq<usize>, n: int)
    requires
        is_chat_order(msgs, o1),
        is_chat_order(msgs, o2),
        0 <= n <= o1.len(),
    ensures
        forall|j: int| 0 <= j < n ==> o1[j] == o2[j],
    decreases n,
{
    if n > 0 {
        lemma_chat_orders_agree_below(msgs, o1, o2, n - 1);
        let k = n - 1;
        let a = o1[k];
        let b = o2[k];
        if a != b {
            lemma_chat_order_is_permutation(msgs, o1);
            lemma_chat_order_is_permutation(msgs, o2);
            assert(o2.contains(a));
            assert(o1.contains(b));
            let p = choose|p: int| 0 <= p < o2.len() && o2[p] == a;
            let q = choose|q: int| 0 <= q < o1.len() && o1[q] == b;
            if p < k {
                assert(o1[p] == o2[p]);
                assert(o1[p] == o1[k]);
            }
            if q < k {
                assert(o1[q] == o2[q]);
                assert(o2[q] == o2[k]);
            }
            assert(shown_above(msgs, b as int, a as int));
            assert(shown_above(msgs, a as int, b as int));
        }
    }
}

/// There is only one chat order of a list of messages.
pub proof fn lemma_chat_order_unique(msgs: Seq<ChatMessage>, o1: Seq<usize>, o2: Seq<usize>)
    requires
        is_chat_order(msgs, o1),
        is_chat_order(msgs, o2),
    ensures
        o1 == o2,
{
    lemma_chat_orders_agree_below(msgs, o1, o2, o1.len() as int);
    assert(o1 =~= o2);
}

/// What `{:?}` prints for a string: the text in double quotes, with quotes,
/// backslashes and control characters escaped.
pub uninterp spec fn debug_escaped(s: Seq<char>) -> Seq<char>;

/// A character that `{:?}` prints as itself inside a string: a printable
/// ASCII character other than `"` and `\`, or a letter of the Latin-1
/// Supplement and Latin Extended-A blocks (U+00C0 to U+017F, all printable
/// and none a combining mark).
pub open spec fn is_plain_char(c: char) -> bool {
    ||| (0x20 <= (c as u32) <= 0x7e && c != '"' && c != '\\')
    ||| (0xc0 <= (c as u32) <= 0x17f)
}

/// Every character of `s` is printed as itself by `{:?}`.
pub open spec fn is_plain_text(s: Seq<char>) -> bool {
    forall|i: int| 0 <= i < s.len() ==> is_plain_char(#[trigger] s[i])
}

/// `s` between double quotes.
pub open spec fn quoted(s: Seq<char>) -> Seq<char> {
    seq!['"'] + s + seq!['"']
}

/// Formats `s` with `{:?}`, that is std's `<str as Debug>::fmt`. The
/// contract names the result as a function of `s`, and states the one case
/// std's documentation makes plain: a string whose characters are all
/// printable and neither a quote nor a backslash is printed as itself
/// between double quotes. What std does with the other characters (which
/// escape it picks) is left to the name.
#[verifier::external_body]
fn debug_str(s: &str) -> (r: String)
    ensures
        r@ == debug_escaped(s@),
        is_plain_text(s@) ==> r@ == quoted(s@),
{
    format!("{:?}", s)
}

/// The user name the chat area shows for a message: the author's user name
/// (which the server may leave out), or `Unknown` when the author is not
/// known.
pub open spec fn shown_username(m: ChatMessage) -> Option<Seq<char>> {
    match m.author {
        Some(author) => match author.username {
            Some(name) => Some(name@),
            None => None,
        },
        None => Some("Unknown"@),
    }
}

/// The text the chat area shows for a message's content.
pub open spec fn shown_content(content: Option<String>) -> Seq<char> {
    match content {
        Some(c) => c@,
        None => "No Content"@,
    }
}

/// The head of a chat line, written as `{:?}` writes an optional name whose
/// escaped form is `quoted`.
pub open spec fn optional_name_text(quoted: Option<Seq<char>>) -> Seq<char> {
    match quoted {
        Some(q) => "Some("@ + q + ")"@,
        None => "None"@,
    }
}

/// What `{:?}` prints for the user name `name`: the name itself between
/// double quotes when all its characters print as themselves, and std's
/// escaped form otherwise.
pub open spec fn debug_text(name: Seq<char>) -> Seq<char> {
    if is_plain_text(name) {
        quoted(name)
    } else {
        debug_escaped(name)
    }
}

/// The line the chat area shows for a message.
pub open spec fn chat_line_text(m: ChatMessage) -> Seq<char> {
    let quoted = match shown_username(m) {
        Some(name) => Some(debug_text(name)),
        None => None,
    };
    optional_name_text(quoted) + ": "@ + shown_content(m.content)
}

/// Puts a chat line together from the escaped user name (`None` when the
/// name is missing) and the message's content.
pub fn compose_chat_line(quoted_username: Option<String>, content: &Option<String>) -> (line: String)
    ensures
        line@ == optional_name_text(match quoted_username {
            Some(q) => Some(q@),
            None => None,
        }) + ": "@ + shown_content(*content),
{
    let mut line = match quoted_username {
        Some(q) => {
            let mut head = String::from_str("Some(");
            head.append(q.as_str());
            head.append(")");
            head
        },
        None => String::from_str("None"),
    };
    line.append(": ");
    match content {
        Some(c) => line.append(c.as_str()),
        None => line.append("No Content"),
    }
    line
}

fn is_plain_str(s: &str) -> (b: bool)
    ensures
        b == is_plain_text(s@),
{
    let n = s.unicode_len();
    let mut i: usize = 0;
    while i < n
        invariant
            n == s@.len(),
            i <= n,
            forall|j: int| 0 <= j < i ==> is_plain_char(#[trigger] s@[j]),
        decreases n - i,
    {
        let c = s.get_char(i);
        let code = c as u32;
        let plain = (0x20 <= code && code <= 0x7e && c != '"' && c != '\\') || (0xc0 <= code && code <= 0x17f);
        if !plain {
            assert(!is_plain_char(s@[i as int]));
            return false;
        }
        i = i + 1;
    }
    true
}

fn quote_plain(s: &str) -> (r: String)
    ensures
        r@ == quoted(s@),
{
    proof {
        reveal_strlit("\"");
    }
    let mut r = String::from_str("\"");
    r.append(s);
    r.append("\"");
    r
}

/// What `{:?}` prints for the user name `name` (see [`debug_text`]).
fn show_name(name: &str) -> (r: String)
    ensures
        r@ == debug_text(name@),
{
    if is_plain_str(name) {
        quote_plain(name)
    } else {
        debug_str(name)
    }
}

/// The line the chat area shows for `m`.
pub fn chat_line(m: &ChatMessage) -> (line: String)
    ensures
        line@ == chat_line_text(*m),
        shown_username(*m) matches Some(name) ==> (is_plain_text(name) ==> line@ == "Some("@ + quoted(name)
            + ")"@ + ": "@ + shown_content(m.content)),
{
    let quoted = match &m.author {
        Some(author) => match &author.username {
            Some(name) => Some(show_name(name.as_str())),
            None => None,
        },
        None => Some(show_name("Unknown")),
    };
    compose_chat_line(quoted, &m.content)
}

/// `lines` shows `msgs` in the chat order `order`.
pub open spec fn lines_in_order(msgs: Seq<ChatMessage>, order: Seq<usize>, lines: Seq<String>) -> bool {
    &&& lines.len() == order.len()
    &&& forall|k: int| 0 <= k < lines.len() ==> #[trigger] lines[k]@ == chat_line_text(msgs[order[k] as int])
}

/// The lines of the chat area for the fetched messages `msgs`, oldest
/// first.
pub fn chat_lines(msgs: &Vec<ChatMessage>) -> (lines: Vec<String>)
    ensures
        exists|order: Seq<usize>| is_chat_order(msgs@, order) && lines_in_order(msgs@, order, lines@),
{
    let order = chat_order(msgs);
    let mut lines: Vec<String> = Vec::new();
    let mut k: usize = 0;
    while k < order.len()
        invariant
            is_chat_order(msgs@, order@),
            k <= order.len(),
            lines.len() == k,
            forall|j: int| 0 <= j < k ==> #[trigger] lines[j]@ == chat_line_text(msgs@[order[j] as int]),
        decreases order.len() - k,
    {
        let line = chat_line(&msgs[order[k]]);
        lines.push(line);
        k = k + 1;
    }
    assert(lines_in_order(msgs@, order@, lines@));
    lines
}

} // verus!
