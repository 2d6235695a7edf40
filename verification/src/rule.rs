//! Match rules: predicates over message metadata that route signals to
//! subscribers, both locally and — serialized to a string — at the remote bus.

use vstd::prelude::*;
use vstd::string::StringExecFns;
use vstd::string::StrSliceExecFns;

use crate::message::{Message, MessageType, MessageV};

verus! {

/// A predicate over message metadata. A field of `None` matches anything; a
/// field of `Some(v)` matches only a message that carries exactly `v` there.
#[derive(Clone)]
pub struct MatchRule {
    pub msg_type: Option<MessageType>,
    pub sender: Option<String>,
    pub path: Option<String>,
    pub interface: Option<String>,
    pub member: Option<String>,
}

/// Mathematical model of a [`MatchRule`].
#[verifier::ext_equal]
pub struct MatchRuleV {
    pub msg_type: Option<MessageType>,
    pub sender: Option<Seq<char>>,
    pub path: Option<Seq<char>>,
    pub interface: Option<Seq<char>>,
    pub member: Option<Seq<char>>,
}

impl View for MatchRule {
    type V = MatchRuleV;

    open spec fn view(&self) -> MatchRuleV {
        MatchRuleV {
            msg_type: self.msg_type,
            sender: self.sender.deep_view(),
            path: self.path.deep_view(),
            interface: self.interface.deep_view(),
            member: self.member.deep_view(),
        }
    }
}

/// Whether a constrained field accepts what the message carries.
pub open spec fn field_matches(rf: Option<Seq<char>>, mf: Option<Seq<char>>) -> bool {
    match rf {
        None => true,
        Some(s) => mf == Some(s),
    }
}

/// Whether the rule accepts the message: every constrained field must agree.
pub open spec fn rule_matches(r: MatchRuleV, m: MessageV) -> bool {
    &&& match r.msg_type {
        None => true,
        Some(t) => m.msg_type == t,
    }
    &&& field_matches(r.sender, m.sender)
    &&& field_matches(r.path, m.path)
    &&& field_matches(r.interface, m.interface)
    &&& field_matches(r.member, m.member)
}

/// Compares one constrained field against what a message carries.
fn exec_field_matches(rf: &Option<String>, mf: &Option<String>) -> (r: bool)
    ensures
        r == field_matches(rf.deep_view(), mf.deep_view()),
{
    match rf {
        None => true,
        Some(s) => match mf {
            Some(t) => *s == *t,
            None => false,
        },
    }
}

/// One serialized piece of a match rule: `key='value',` when the field is
/// constrained, nothing when it is free.
pub open spec fn part_spec(key: Seq<char>, val: Option<Seq<char>>) -> Seq<char> {
    match val {
        Some(v) => key + v + "',"@,
        None => Seq::<char>::empty(),
    }
}

/// The serialized name of a constrained message type.
pub open spec fn type_part_spec(t: Option<MessageType>) -> Seq<char> {
    match t {
        None => Seq::<char>::empty(),
        Some(MessageType::MethodCall) => "type='method_call',"@,
        Some(MessageType::MethodReturn) => "type='method_return',"@,
        Some(MessageType::Error) => "type='error',"@,
        Some(MessageType::Signal) => "type='signal',"@,
    }
}

/// The canonical serialization of a match rule, as the remote bus reads it:
/// the constrained fields in the order type, sender, path, interface, member,
/// each as `key='value'`, separated by commas.
pub open spec fn match_str_spec(r: MatchRuleV) -> Seq<char> {
    let all = type_part_spec(r.msg_type) + part_spec("sender='"@, r.sender) + part_spec(
        "path='"@,
        r.path,
    ) + part_spec("interface='"@, r.interface) + part_spec("member='"@, r.member);
    if all.len() > 0 {
        all.drop_last()
    } else {
        all
    }
}

/// Appends one `key='value',` piece for a constrained field.
fn append_part(out: &mut String, key: &str, val: &Option<String>)
    ensures
        final(out)@ == old(out)@ + part_spec(key@, val.deep_view()),
{
    match val {
        Some(v) => {
            out.append(key);
            out.append(v.as_str());
            out.append("',");
            proof {
                assert(final(out)@ =~= old(out)@ + part_spec(key@, val.deep_view()));
            }
        },
        None => {
            proof {
                assert(final(out)@ =~= old(out)@ + part_spec(key@, val.deep_view()));
            }
        },
    }
}

impl MatchRule {
    /// The rule that matches every message.
    pub fn new() -> (r: MatchRule)
        ensures
            r@.msg_type is None,
            r@.sender is None,
            r@.path is None,
            r@.interface is None,
            r@.member is None,
    {
        MatchRule { msg_type: None, sender: None, path: None, interface: None, member: None }
    }

    /// Whether this rule accepts the message.
    pub fn matches(&self, m: &Message) -> (r: bool)
        ensures
            r == rule_matches(self@, m@),
    {
        let type_ok = match self.msg_type {
            None => true,
            Some(t) => t == m.msg_type,
        };
        type_ok && exec_field_matches(&self.sender, &m.sender) && exec_field_matches(
            &self.path,
            &m.path,
        ) && exec_field_matches(&self.interface, &m.interface) && exec_field_matches(
            &self.member,
            &m.member,
        )
    }

    /// Serializes this rule to the string the remote bus expects.
    pub fn match_str(&self) -> (r: String)
        ensures
            r@ == match_str_spec(self@),
    {
        let mut out = String::new();
        match self.msg_type {
            None => (),
            Some(MessageType::MethodCall) => out.append("type='method_call',"),
            Some(MessageType::MethodReturn) => out.append("type='method_return',"),
            Some(MessageType::Error) => out.append("type='error',"),
            Some(MessageType::Signal) => out.append("type='signal',"),
        }
        proof {
            assert(out@ =~= type_part_spec(self@.msg_type));
        }
        append_part(&mut out, "sender='", &self.sender);
        append_part(&mut out, "path='", &self.path);
        append_part(&mut out, "interface='", &self.interface);
        append_part(&mut out, "member='", &self.member);
        if out.as_str().unicode_len() > 0 {
            let n = out.as_str().unicode_len();
            let trimmed = out.as_str().substring_char(0, n - 1);
            proof {
                assert(trimmed@ =~= match_str_spec(self@));
            }
            trimmed.to_owned()
        } else {
            out
        }
    }
}

} // verus!
