//! JSON documents whose members stand in a given order, as those of a record do.

use crate::json::string_json;
use crate::text::append_decimal;
use vstd::prelude::*;

#[allow(unused_imports)]
use crate::json::{is_one_line, string_text};
#[allow(unused_imports)]
use crate::text::{decimal, text_of};

verus! {

/// One member: its name, and the text of its value.
pub open spec fn member_text(name: Seq<char>, value: Seq<char>) -> Seq<char> {
    string_text(name) + seq![':'] + value
}

/// Members, one after the other, with commas between them.
pub open spec fn members_text(members: Seq<(Seq<char>, Seq<char>)>) -> Seq<char>
    decreases members.len(),
{
    if members.len() == 0 {
        seq![]
    } else if members.len() == 1 {
        member_text(members[0].0, members[0].1)
    } else {
        members_text(members.drop_last()) + seq![','] + member_text(
            members.last().0,
            members.last().1,
        )
    }
}

/// The text of an object with these members, in this order and without white space.
pub open spec fn document_text(members: Seq<(Seq<char>, Seq<char>)>) -> Seq<char> {
    seq!['{'] + members_text(members) + seq!['}']
}

/// The text of an optional string: the string, or `null`.
pub open spec fn optional_text(value: Option<Seq<char>>) -> Seq<char> {
    match value {
        Some(text) => string_text(text),
        None => "null"@,
    }
}

/// The text of a truth value.
pub open spec fn bool_text(value: bool) -> Seq<char> {
    if value {
        "true"@
    } else {
        "false"@
    }
}

/// A document that is being written.
pub(crate) struct Document {
    text: String,
    is_empty: bool,
    members: Ghost<Seq<(Seq<char>, Seq<char>)>>,
}

impl Document {
    pub(crate) closed spec fn wf(self) -> bool {
        &&& self.text@ == seq!['{'] + members_text(self.members@)
        &&& self.is_empty == (self.members@.len() == 0)
        &&& is_one_line(self.text@)
    }

    pub(crate) closed spec fn members(self) -> Seq<(Seq<char>, Seq<char>)> {
        self.members@
    }

    pub(crate) fn new() -> (res: Document)
        ensures
            res.wf(),
            res.members() == Seq::<(Seq<char>, Seq<char>)>::empty(),
    {
        proof {
            reveal_strlit("{");
        }
        let res = Document {
            text: "{".to_string(),
            is_empty: true,
            members: Ghost(Seq::empty()),
        };
        assert(res.text@ =~= seq!['{'] + members_text(res.members@));
        res
    }

    /// Adds a member behind the others.
    pub(crate) fn put(&mut self, name: &str, value: &str)
        requires
            old(self).wf(),
            is_one_line(value@),
        ensures
            final(self).wf(),
            final(self).members() == old(self).members().push((name@, value@)),
    {
        proof {
            reveal_strlit(",");
            reveal_strlit(":");
        }
        let ghost before = self.members@;
        let ghost after = before.push((name@, value@));
        if !self.is_empty {
            self.text.append(",");
        }
        let quoted = string_json(name);
        self.text.append(quoted.as_str());
        self.text.append(":");
        self.text.append(value);
        self.is_empty = false;
        self.members = Ghost(after);
        proof {
            assert(after.drop_last() =~= before);
            assert(self.text@ =~= seq!['{'] + members_text(after));
        }
    }

    pub(crate) fn finish(self) -> (res: String)
        requires
            self.wf(),
        ensures
            res@ == document_text(self.members()),
            is_one_line(res@),
    {
        proof {
            reveal_strlit("}");
        }
        let mut text = self.text;
        text.append("}");
        assert(text@ =~= document_text(self.members()));
        text
    }
}

/// An optional string as JSON.
pub(crate) fn optional_json(value: &Option<String>) -> (res: String)
    ensures
        res@ == optional_text(text_of(*value)),
        is_one_line(res@),
{
    proof {
        reveal_strlit("null");
    }
    match value {
        Some(text) => string_json(text.as_str()),
        None => "null".to_string(),
    }
}

/// A truth value as JSON.
pub(crate) fn bool_json(value: bool) -> (res: &'static str)
    ensures
        res@ == bool_text(value),
        is_one_line(res@),
{
    proof {
        reveal_strlit("true");
        reveal_strlit("false");
    }
    if value {
        "true"
    } else {
        "false"
    }
}

proof fn lemma_decimal_is_one_line(n: nat)
    ensures
        is_one_line(decimal(n)),
    decreases n,
{
    if n >= 10 {
        lemma_decimal_is_one_line(n / 10);
    }
}

/// A number as JSON.
pub(crate) fn count_json(value: usize) -> (res: String)
    ensures
        res@ == decimal(value as nat),
        is_one_line(res@),
{
    let mut text = String::new();
    append_decimal(&mut text, value as u64);
    proof {
        lemma_decimal_is_one_line(value as nat);
    }
    text
}

/// A document holds its members one after the other: what comes behind others follows them after
/// one comma.
pub proof fn members_follow_each_other(
    first: Seq<(Seq<char>, Seq<char>)>,
    rest: Seq<(Seq<char>, Seq<char>)>,
)
    requires
        first.len() > 0,
        rest.len() > 0,
    ensures
        members_text(first + rest) == members_text(first) + seq![','] + members_text(rest),
    decreases rest.len(),
{
    let all = first + rest;
    assert(all.drop_last() =~= first + rest.drop_last());
    assert(all.last() == rest.last());
    if rest.len() > 1 {
        members_follow_each_other(first, rest.drop_last());
        assert(members_text(all) =~= members_text(first) + seq![','] + members_text(rest));
    } else {
        assert(first + rest.drop_last() =~= first);
        assert(members_text(all) =~= members_text(first) + seq![','] + members_text(rest));
    }
}

/// A document of one member is the member between braces, its name and its value with a colon
/// between them, and one of none is a pair of braces.
pub proof fn documents_stand_between_braces(name: Seq<char>, value: Seq<char>)
    ensures
        document_text(seq![(name, value)]) == seq!['{'] + string_text(name) + seq![':'] + value
            + seq!['}'],
        document_text(seq![]) == seq!['{', '}'],
{
    assert(document_text(seq![(name, value)]) =~= seq!['{'] + string_text(name) + seq![':'] + value
        + seq!['}']);
    assert(document_text(seq![]) =~= seq!['{', '}']);
}

} // verus!
