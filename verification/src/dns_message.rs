use vstd::prelude::*;

use hickory_proto::op::Message;
use hickory_proto::rr::rdata::svcb::{Alpn, EchConfigList, SvcParamKey, SvcParamValue};
use hickory_proto::rr::rdata::{A, AAAA, HTTPS, SVCB};
use hickory_proto::rr::{Name, RData, Record};

use crate::dns::{
    https_answer_edit, https_answer_edit_spec, keeps_svc_param, plan_ech, plan_server_redirect, EchOptions,
    EchPlan, IpLiteral, RedirectPlan, SvcParamPlan, RECORD_TYPE_A, RECORD_TYPE_AAAA, RECORD_TYPE_HTTPS,
    SVC_PARAM_IPV4_HINT, SVC_PARAM_IPV6_HINT,
};

verus! {

#[verifier::external_type_specification]
#[verifier::external_body]
pub struct ExDnsMessage(Message);

/// One DNS question as the logic reads it: the name in ASCII presentation
/// form and the record type.
pub type QuestionView = (Seq<char>, u16);

/// One service parameter of an HTTPS record as the logic reads it: the
/// key, the protocol identifiers of an `alpn` value (empty for other keys),
/// and the wire bytes of any other value (empty for `alpn`).
pub type ParamView = (u16, Seq<Seq<char>>, Seq<u8>);

/// One answer record as the logic reads it.
pub struct AnswerView {
    /// The owner name in ASCII presentation form.
    pub owner: Seq<char>,
    /// The kind of data: the record type of an IPv4 address, an IPv6
    /// address or an HTTPS service binding; 0 for any other data.
    pub kind: u16,
    /// The time to live in seconds.
    pub ttl: u32,
    /// The octets of an IPv4 or IPv6 address (empty for other data).
    pub address: Seq<u8>,
    /// The priority of an HTTPS service binding (0 for other data).
    pub priority: u16,
    /// The target name of an HTTPS service binding (empty for other data).
    pub target: Seq<char>,
    /// The service parameters of an HTTPS service binding, in order (empty
    /// for other data).
    pub params: Seq<ParamView>,
}

/// The header of a DNS message as the logic reads it.
pub struct HeaderView {
    /// The identifier that matches a reply to its query.
    pub id: u16,
    /// The message type is a response.
    pub response: bool,
    /// The operation code.
    pub op_code: u8,
    /// The authoritative-answer flag.
    pub authoritative: bool,
    /// The truncation flag.
    pub truncation: bool,
    /// The recursion-desired flag.
    pub recursion_desired: bool,
    /// The recursion-available flag.
    pub recursion_available: bool,
    /// The authentic-data flag.
    pub authentic_data: bool,
    /// The checking-disabled flag.
    pub checking_disabled: bool,
    /// The response code.
    pub response_code: u16,
}

/// A DNS message as the logic reads it: its header, questions and the
/// records of its answer, authority and additional sections.
pub struct MessageView {
    /// The header.
    pub header: HeaderView,
    /// The questions, in order.
    pub questions: Seq<QuestionView>,
    /// The answer records, in order.
    pub answers: Seq<AnswerView>,
    /// The authority records, in order.
    pub authorities: Seq<AnswerView>,
    /// The additional records, in order.
    pub additionals: Seq<AnswerView>,
}

/// The header of a DNS message (`Message::metadata`).
pub uninterp spec fn dns_header(m: Message) -> HeaderView;

/// The questions of a DNS message, in order.
pub uninterp spec fn dns_questions(m: Message) -> Seq<QuestionView>;

/// The answer records of a DNS message, in order.
pub uninterp spec fn dns_answers(m: Message) -> Seq<AnswerView>;

/// The authority records of a DNS message, in order.
pub uninterp spec fn dns_authorities(m: Message) -> Seq<AnswerView>;

/// The additional records of a DNS message, in order.
pub uninterp spec fn dns_additionals(m: Message) -> Seq<AnswerView>;

/// What the logic reads of a message.
pub open spec fn message_view(m: Message) -> MessageView {
    MessageView {
        header: dns_header(m),
        questions: dns_questions(m),
        answers: dns_answers(m),
        authorities: dns_authorities(m),
        additionals: dns_additionals(m),
    }
}

/// The view `v` with other answer records.
pub open spec fn with_answers(v: MessageView, answers: Seq<AnswerView>) -> MessageView {
    MessageView { answers, ..v }
}

/// Two views that differ at most in their answer records.
pub open spec fn same_except_answers(a: MessageView, b: MessageView) -> bool {
    a == with_answers(b, a.answers)
}

/// The view `v` with other questions.
pub open spec fn with_questions(v: MessageView, questions: Seq<QuestionView>) -> MessageView {
    MessageView { questions, ..v }
}

/// The wire form that `Message::to_vec` produces for a message, or `None`
/// when encoding fails.
pub uninterp spec fn dns_encoding(m: Message) -> Option<Seq<u8>>;

/// What the logic reads of the message that `Message::from_vec` decodes
/// from wire bytes, or `None` when they are not a DNS message.
pub uninterp spec fn dns_decoding(wire: Seq<u8>) -> Option<MessageView>;

/// The ASCII form of the name that `Name::from_ascii` reads from a text,
/// or `None` when the text is not a domain name.
pub uninterp spec fn ascii_name(text: Seq<char>) -> Option<Seq<char>>;

/// Decodes a DNS message with `Message::from_vec`; a failure is reported by
/// the error's message.
#[verifier::external_body]
fn dns_decode(wire: &[u8]) -> (r: Result<Message, String>)
    ensures
        r is Ok <==> dns_decoding(wire@) is Some,
        r matches Ok(m) ==> dns_decoding(wire@) == Some(message_view(m)),
{
    Message::from_vec(wire).map_err(|e| e.to_string())
}

/// Encodes a DNS message with `Message::to_vec`; a failure is reported by
/// the error's message.
#[verifier::external_body]
fn dns_encode(m: &Message) -> (r: Result<Vec<u8>, String>)
    ensures
        r is Ok <==> dns_encoding(*m) is Some,
        r matches Ok(w) ==> dns_encoding(*m) == Some(w@),
{
    m.to_vec().map_err(|e| e.to_string())
}

/// Reads the name (through `Name::to_ascii`) and record type of the first
/// question.
#[verifier::external_body]
fn dns_first_question(m: &Message) -> (r: Option<(String, u16)>)
    ensures
        r is None <==> dns_questions(*m).len() == 0,
        r matches Some(q) ==> (q.0@, q.1) == dns_questions(*m)[0],
{
    m.queries.first().map(|q| (q.name().to_ascii(), u16::from(q.query_type())))
}

/// Copies a message with `Message::clone`.
#[verifier::external_body]
fn dns_clone(m: &Message) -> (r: Message)
    ensures
        message_view(r) == message_view(*m),
{
    m.clone()
}

/// Turns a request into its response with `Message::into_response`, which
/// only sets the header's message type to a response.
#[verifier::external_body]
fn dns_into_response(m: Message) -> (r: Message)
    ensures
        dns_header(r) == (HeaderView { response: true, ..dns_header(m) }),
        dns_questions(r) == dns_questions(m),
        dns_answers(r) == dns_answers(m),
        dns_authorities(r) == dns_authorities(m),
        dns_additionals(r) == dns_additionals(m),
{
    m.into_response()
}

/// Removes every answer, authority and additional record with `Vec::clear`.
#[verifier::external_body]
fn dns_clear_records(m: &mut Message)
    ensures
        dns_header(*final(m)) == dns_header(*old(m)),
        dns_questions(*final(m)) == dns_questions(*old(m)),
        dns_answers(*final(m)) == Seq::<AnswerView>::empty(),
        dns_authorities(*final(m)) == Seq::<AnswerView>::empty(),
        dns_additionals(*final(m)) == Seq::<AnswerView>::empty(),
{
    m.answers.clear();
    m.authorities.clear();
    m.additionals.clear();
}

/// The octets of an IP address, most significant first.
pub open spec fn ip_octets(ip: IpLiteral) -> Seq<u8> {
    match ip {
        IpLiteral::V4(a, b, c, d) => seq![a, b, c, d],
        IpLiteral::V6(a, b, c, d, e, f, g, h) => seq![
            (a / 256) as u8, (a % 256) as u8, (b / 256) as u8, (b % 256) as u8,
            (c / 256) as u8, (c % 256) as u8, (d / 256) as u8, (d % 256) as u8,
            (e / 256) as u8, (e % 256) as u8, (f / 256) as u8, (f % 256) as u8,
            (g / 256) as u8, (g % 256) as u8, (h / 256) as u8, (h % 256) as u8
        ],
    }
}

/// The address record for `owner` that answers locally with `ip`, with a
/// time to live of 300 seconds.
pub open spec fn address_answer(owner: Seq<char>, ip: IpLiteral) -> AnswerView {
    AnswerView {
        owner,
        kind: match ip {
            IpLiteral::V4(..) => RECORD_TYPE_A,
            IpLiteral::V6(..) => RECORD_TYPE_AAAA,
        },
        ttl: 300,
        address: ip_octets(ip),
        priority: 0,
        target: Seq::empty(),
        params: Seq::empty(),
    }
}

/// Appends an A or AAAA answer for the first question's name with a time
/// to live of 300 seconds, through `Record::from_rdata` and
/// `Message::add_answer`.
#[verifier::external_body]
fn dns_add_address_answer(m: &mut Message, ip: IpLiteral)
    requires
        dns_questions(*old(m)).len() > 0,
    ensures
        message_view(*final(m)) == with_answers(
            message_view(*old(m)),
            dns_answers(*old(m)).push(address_answer(dns_questions(*old(m))[0].0, ip)),
        ),
{
    let name = m.queries[0].name().clone();
    let data = match ip {
        IpLiteral::V4(a, b, c, d) => RData::A(A::new(a, b, c, d)),
        IpLiteral::V6(a, b, c, d, e, f, g, h) => RData::AAAA(AAAA::new(a, b, c, d, e, f, g, h)),
    };
    m.add_answer(Record::from_rdata(name, 300, data));
}

/// Renames the first question with the name that `Name::from_ascii` reads
/// from `name`.
#[verifier::external_body]
fn dns_set_question_name(m: &mut Message, name: &str) -> (r: Result<(), String>)
    requires
        dns_questions(*old(m)).len() > 0,
    ensures
        r is Ok <==> ascii_name(name@) is Some,
        r is Ok ==> message_view(*final(m)) == with_questions(
            message_view(*old(m)),
            dns_questions(*old(m)).update(0, (ascii_name(name@).unwrap(), dns_questions(*old(m))[0].1)),
        ),
        r is Err ==> message_view(*final(m)) == message_view(*old(m)),
{
    let parsed = Name::from_ascii(name).map_err(|e| e.to_string())?;
    m.queries[0].set_name(parsed);
    Ok(())
}

/// Replaces the questions of `m` with copies of those of `from`.
#[verifier::external_body]
fn dns_copy_questions(m: &mut Message, from: &Message)
    ensures
        message_view(*final(m)) == with_questions(message_view(*old(m)), dns_questions(*from)),
{
    m.queries = from.queries.clone();
}

/// The number of answer records.
#[verifier::external_body]
fn dns_answer_count(m: &Message) -> (r: usize)
    ensures
        r == dns_answers(*m).len(),
{
    m.answers.len()
}

/// Reads the owner name (through `Name::to_ascii`) and the kind of data of
/// the `i`-th answer.
#[verifier::external_body]
fn dns_answer_head(m: &Message, i: usize) -> (r: (String, u16))
    requires
        i < dns_answers(*m).len(),
    ensures
        r.0@ == dns_answers(*m)[i as int].owner,
        r.1 == dns_answers(*m)[i as int].kind,
{
    let kind = match &m.answers[i].data {
        RData::A(_) => RECORD_TYPE_A,
        RData::AAAA(_) => RECORD_TYPE_AAAA,
        RData::HTTPS(_) => RECORD_TYPE_HTTPS,
        _ => 0,
    };
    (m.answers[i].name.to_ascii(), kind)
}

/// Reads the target name (through `Name::to_ascii`) of the `i`-th answer,
/// an HTTPS record.
#[verifier::external_body]
fn dns_answer_target(m: &Message, i: usize) -> (r: String)
    requires
        i < dns_answers(*m).len(),
        dns_answers(*m)[i as int].kind == RECORD_TYPE_HTTPS,
    ensures
        r@ == dns_answers(*m)[i as int].target,
{
    match &m.answers[i].data {
        RData::HTTPS(HTTPS(svcb)) => svcb.target_name.to_ascii(),
        _ => String::new(),
    }
}

/// Renames the `i`-th answer with the name that `Name::from_ascii` reads
/// from `name`.
#[verifier::external_body]
fn dns_set_answer_name(m: &mut Message, i: usize, name: &str) -> (r: Result<(), String>)
    requires
        i < dns_answers(*old(m)).len(),
    ensures
        r is Ok <==> ascii_name(name@) is Some,
        r is Ok ==> message_view(*final(m)) == with_answers(
            message_view(*old(m)),
            dns_answers(*old(m)).update(i as int, AnswerView { owner: ascii_name(name@).unwrap(), ..dns_answers(*old(m))[i as int] }),
        ),
        r is Err ==> message_view(*final(m)) == message_view(*old(m)),
{
    m.answers[i].name = Name::from_ascii(name).map_err(|e| e.to_string())?;
    Ok(())
}

/// Retargets the `i`-th answer, an HTTPS record, to the name that
/// `Name::from_ascii` reads from `name`.
#[verifier::external_body]
fn dns_set_answer_target(m: &mut Message, i: usize, name: &str) -> (r: Result<(), String>)
    requires
        i < dns_answers(*old(m)).len(),
        dns_answers(*old(m))[i as int].kind == RECORD_TYPE_HTTPS,
    ensures
        r is Ok <==> ascii_name(name@) is Some,
        r is Ok ==> message_view(*final(m)) == with_answers(
            message_view(*old(m)),
            dns_answers(*old(m)).update(i as int, AnswerView { target: ascii_name(name@).unwrap(), ..dns_answers(*old(m))[i as int] }),
        ),
        r is Err ==> message_view(*final(m)) == message_view(*old(m)),
{
    let target = Name::from_ascii(name).map_err(|e| e.to_string())?;
    if let RData::HTTPS(HTTPS(svcb)) = &mut m.answers[i].data {
        svcb.target_name = target;
    }
    Ok(())
}

/// The service parameters that remain once the IP address hints are
/// dropped, in order.
pub open spec fn without_ip_hints(params: Seq<ParamView>) -> Seq<ParamView>
    decreases params.len(),
{
    if params.len() == 0 {
        params
    } else {
        let rest = without_ip_hints(params.drop_first());
        if params[0].0 != SVC_PARAM_IPV4_HINT && params[0].0 != SVC_PARAM_IPV6_HINT {
            seq![params[0]] + rest
        } else {
            rest
        }
    }
}

/// Drops the IP address hints of the `i`-th answer, an HTTPS record, with
/// `Vec::retain`, keeping the order of the other parameters.
#[verifier::external_body]
fn dns_drop_ip_hints(m: &mut Message, i: usize)
    requires
        i < dns_answers(*old(m)).len(),
        dns_answers(*old(m))[i as int].kind == RECORD_TYPE_HTTPS,
    ensures
        message_view(*final(m)) == with_answers(
            message_view(*old(m)),
            dns_answers(*old(m)).update(
                i as int,
                AnswerView { params: without_ip_hints(dns_answers(*old(m))[i as int].params), ..dns_answers(*old(m))[i as int] },
            ),
        ),
{
    if let RData::HTTPS(HTTPS(svcb)) = &mut m.answers[i].data {
        svcb.svc_params.retain(|(key, _)| keeps_svc_param(u16::from(*key)));
    }
}

/// Appends an HTTPS answer of priority 1 for the first question's name
/// with a time to live of 300 seconds, targeting the name that
/// `Name::from_ascii` reads from `target`, with these service parameters.
#[verifier::external_body]
fn dns_add_https_answer(m: &mut Message, target: &str, params: Vec<SvcParamPlan>) -> (r: Result<(), String>)
    requires
        dns_questions(*old(m)).len() > 0,
    ensures
        r is Ok <==> ascii_name(target@) is Some,
        r is Ok ==> message_view(*final(m)) == with_answers(
            message_view(*old(m)),
            dns_answers(*old(m)).push(
                https_answer(dns_questions(*old(m))[0].0, ascii_name(target@).unwrap(), params@.map_values(|p: SvcParamPlan| crate::dns::svc_param_view(p))),
            ),
        ),
        r is Err ==> message_view(*final(m)) == message_view(*old(m)),
{
    let target = Name::from_ascii(target).map_err(|e| e.to_string())?;
    let params = params.into_iter().map(|p| match p {
        SvcParamPlan::Alpn(protocol) => (SvcParamKey::Alpn, SvcParamValue::Alpn(Alpn(vec![protocol]))),
        SvcParamPlan::Port(port) => (SvcParamKey::Port, SvcParamValue::Port(port)),
        SvcParamPlan::EchConfigList(c) => (SvcParamKey::EchConfigList, SvcParamValue::EchConfigList(EchConfigList(c))),
    }).collect();
    let name = m.queries[0].name().clone();
    m.add_answer(Record::from_rdata(name, 300, RData::HTTPS(HTTPS(SVCB::new(1, target, params)))));
    Ok(())
}

/// The HTTPS record of priority 1 for `owner` that answers locally, with a
/// time to live of 300 seconds.
pub open spec fn https_answer(owner: Seq<char>, target: Seq<char>, params: Seq<ParamView>) -> AnswerView {
    AnswerView { owner, kind: RECORD_TYPE_HTTPS, ttl: 300, address: Seq::empty(), priority: 1, target, params }
}

/// An `InvalidData` I/O error with `message`, through `io::Error::new`.
#[verifier::external_body]
fn invalid_dns(message: String) -> std::io::Error {
    std::io::Error::new(std::io::ErrorKind::InvalidData, message)
}


/// The first question of a message, when it has one.
pub open spec fn first_of(questions: Seq<QuestionView>) -> Option<(Seq<char>, u16)> {
    if questions.len() > 0 {
        Some(questions[0])
    } else {
        None
    }
}

/// A message that reads as `v` is encoded as `wire`.
pub open spec fn encodes_as(wire: Seq<u8>, v: MessageView) -> bool {
    exists|m: Message|
        #![trigger dns_encoding(m)]
        dns_encoding(m) == Some(wire) && message_view(m) == v
}

/// A message that reads as `v` failed to encode.
pub open spec fn fails_to_encode(v: MessageView) -> bool {
    exists|m: Message|
        #![trigger dns_encoding(m)]
        dns_encoding(m) is None && message_view(m) == v
}

/// The reply to a query answered locally with a message that reads as `v`:
/// its encoding, or an error when the message fails to encode.
pub open spec fn local_reply(r: Result<Vec<u8>, std::io::Error>, v: MessageView) -> bool {
    match r {
        Ok(w) => encodes_as(w@, v),
        Err(_) => fails_to_encode(v),
    }
}

/// Whether an answer to a forwarded address query is renamed back to the
/// server name: address records owned by the server address.
pub open spec fn forwarded_to_rename(a: AnswerView, server_address: Seq<char>) -> bool {
    (a.kind == RECORD_TYPE_A || a.kind == RECORD_TYPE_AAAA) && crate::dns::same_dns_name_spec(a.owner, server_address)
}

/// The answers of a forwarded address query after renaming: those for the
/// server address are owned by `name` instead.
pub open spec fn renamed_answers(answers: Seq<AnswerView>, server_address: Seq<char>, name: Seq<char>) -> Seq<AnswerView> {
    answers.map_values(|a: AnswerView| if forwarded_to_rename(a, server_address) { AnswerView { owner: name, ..a } } else { a })
}

/// Whether some answer is an address record for the server address.
pub open spec fn renames_some(answers: Seq<AnswerView>, server_address: Seq<char>) -> bool {
    exists|i: int| 0 <= i < answers.len() && #[trigger] forwarded_to_rename(answers[i], server_address)
}

/// Renames the address answers for the server address to the server name.
fn rename_forwarded_answers(m: &mut Message, server_name: &str, server_address: &str) -> (r: Result<(), String>)
    ensures
        dns_questions(*final(m)) == dns_questions(*old(m)),
        same_except_answers(message_view(*final(m)), message_view(*old(m))),
        r is Ok <==> ascii_name(server_name@) is Some || !renames_some(dns_answers(*old(m)), server_address@),
        r is Ok ==> dns_answers(*final(m)) == renamed_answers(
            dns_answers(*old(m)),
            server_address@,
            ascii_name(server_name@).unwrap(),
        ),
{
    let ghost before = dns_answers(*m);
    let n = dns_answer_count(m);
    let mut i: usize = 0;
    while i < n
        invariant
            n == before.len(),
            0 <= i <= n,
            dns_questions(*m) == dns_questions(*old(m)),
            same_except_answers(message_view(*m), message_view(*old(m))),
            before == dns_answers(*old(m)),
            dns_answers(*m).len() == n,
            forall|j: int| 0 <= j < i ==> #[trigger] dns_answers(*m)[j] == renamed_answers(before, server_address@, ascii_name(server_name@).unwrap())[j],
            forall|j: int| i <= j < n ==> #[trigger] dns_answers(*m)[j] == before[j],
            forall|j: int| 0 <= j < i ==> forwarded_to_rename(#[trigger] before[j], server_address@) ==> ascii_name(server_name@) is Some,
        decreases n - i,
    {
        let head = dns_answer_head(m, i);
        let is_address = head.1 == RECORD_TYPE_A || head.1 == RECORD_TYPE_AAAA;
        if crate::dns::renames_forwarded_answer(is_address, head.0.as_str(), server_address) {
            match dns_set_answer_name(m, i, server_name) {
                Ok(()) => {},
                Err(e) => {
                    proof {
                        assert(forwarded_to_rename(before[i as int], server_address@));
                    }
                    return Err(e);
                },
            }
        }
        i = i + 1;
    }
    proof {
        assert(dns_answers(*m) =~= renamed_answers(before, server_address@, ascii_name(server_name@).unwrap()));
    }
    Ok(())
}


/// An HTTPS answer to a redirected query, renamed from the queried server
/// back to the server name: `None` when a new name is not a domain name.
pub open spec fn edited_answer(a: AnswerView, from: Seq<char>, to: Seq<char>) -> Option<AnswerView> {
    if a.kind != RECORD_TYPE_HTTPS {
        Some(a)
    } else {
        let (new_owner, new_target) = https_answer_edit_spec(a.owner, a.target, from, to);
        let owner = match new_owner {
            Some(o) => ascii_name(o),
            None => Some(a.owner),
        };
        let target = match new_target {
            Some(t) => ascii_name(t),
            None => Some(a.target),
        };
        match (owner, target) {
            (Some(o), Some(t)) => Some(AnswerView { owner: o, target: t, ..a }),
            _ => None,
        }
    }
}

/// Renames the HTTPS answers of a redirected query back to the server name.
fn rewrite_https_answers(m: &mut Message, from: &str, to: &str) -> (r: Result<(), String>)
    ensures
        dns_questions(*final(m)) == dns_questions(*old(m)),
        same_except_answers(message_view(*final(m)), message_view(*old(m))),
        r is Ok <==> forall|i: int| 0 <= i < dns_answers(*old(m)).len() ==> (#[trigger] edited_answer(dns_answers(*old(m))[i], from@, to@)) is Some,
        r is Ok ==> dns_answers(*final(m)).len() == dns_answers(*old(m)).len() && forall|i: int| 0 <= i < dns_answers(*old(m)).len() ==> Some(#[trigger] dns_answers(*final(m))[i]) == edited_answer(dns_answers(*old(m))[i], from@, to@),
{
    let ghost before = dns_answers(*m);
    let n = dns_answer_count(m);
    let mut i: usize = 0;
    while i < n
        invariant
            n == before.len(),
            0 <= i <= n,
            dns_questions(*m) == dns_questions(*old(m)),
            same_except_answers(message_view(*m), message_view(*old(m))),
            before == dns_answers(*old(m)),
            dns_answers(*m).len() == n,
            forall|j: int| 0 <= j < i ==> Some(#[trigger] dns_answers(*m)[j]) == edited_answer(before[j], from@, to@),
            forall|j: int| i <= j < n ==> #[trigger] dns_answers(*m)[j] == before[j],
        decreases n - i,
    {
        let head = dns_answer_head(m, i);
        if head.1 == RECORD_TYPE_HTTPS {
            let target = dns_answer_target(m, i);
            let (new_owner, new_target) = https_answer_edit(head.0.as_str(), target.as_str(), from, to);
            let ghost a = before[i as int];
            match new_owner {
                Some(owner) => {
                    let renamed = dns_set_answer_name(m, i, owner.as_str());
                    if renamed.is_err() {
                        proof {
                            assert(edited_answer(before[i as int], from@, to@) is None);
                        }
                        return Err(renamed.unwrap_err());
                    }
                },
                None => {},
            }
            match new_target {
                Some(t) => {
                    let retargeted = dns_set_answer_target(m, i, t.as_str());
                    if retargeted.is_err() {
                        proof {
                            assert(edited_answer(before[i as int], from@, to@) is None);
                        }
                        return Err(retargeted.unwrap_err());
                    }
                },
                None => {},
            }
            proof {
                assert(Some(dns_answers(*m)[i as int]) == edited_answer(before[i as int], from@, to@));
            }
        }
        i = i + 1;
    }
    proof {
        assert forall|j: int| 0 <= j < n implies (#[trigger] edited_answer(before[j], from@, to@)) is Some by {
            assert(Some(dns_answers(*m)[j]) == edited_answer(before[j], from@, to@));
        }
    }
    Ok(())
}

/// An HTTPS answer without its IP address hints; other answers unchanged.
pub open spec fn hints_dropped(a: AnswerView) -> AnswerView {
    if a.kind == RECORD_TYPE_HTTPS {
        AnswerView { params: without_ip_hints(a.params), ..a }
    } else {
        a
    }
}

/// Drops the IP address hints of every HTTPS answer.
fn filter_ip_hints(m: &mut Message)
    ensures
        dns_questions(*final(m)) == dns_questions(*old(m)),
        same_except_answers(message_view(*final(m)), message_view(*old(m))),
        dns_answers(*final(m)) == dns_answers(*old(m)).map_values(|a: AnswerView| hints_dropped(a)),
{
    let ghost before = dns_answers(*m);
    let n = dns_answer_count(m);
    let mut i: usize = 0;
    while i < n
        invariant
            n == before.len(),
            0 <= i <= n,
            dns_questions(*m) == dns_questions(*old(m)),
            same_except_answers(message_view(*m), message_view(*old(m))),
            before == dns_answers(*old(m)),
            dns_answers(*m).len() == n,
            forall|j: int| 0 <= j < i ==> #[trigger] dns_answers(*m)[j] == hints_dropped(before[j]),
            forall|j: int| i <= j < n ==> #[trigger] dns_answers(*m)[j] == before[j],
        decreases n - i,
    {
        let head = dns_answer_head(m, i);
        if head.1 == RECORD_TYPE_HTTPS {
            dns_drop_ip_hints(m, i);
        }
        i = i + 1;
    }
    proof {
        assert(dns_answers(*m) =~= before.map_values(|a: AnswerView| hints_dropped(a)));
    }
}


/// The answers of a locally answered address query: one address record
/// for the question's name when the address family matches, else none.
pub open spec fn synthesized_answers(questions: Seq<QuestionView>, ip: Option<IpLiteral>) -> Seq<AnswerView> {
    match ip {
        Some(ip) => seq![address_answer(questions[0].0, ip)],
        None => Seq::empty(),
    }
}

/// The question of `m` as the redirect and ECH plans take it.
fn question_of(question: &Option<(String, u16)>) -> (r: Option<(&str, u16)>)
    ensures
        match question {
            Some(q) => r matches Some(p) && p.0@ == q.0@ && p.1 == q.1,
            None => r is None,
        },
{
    match question {
        Some(q) => Some((q.0.as_str(), q.1)),
        None => None,
    }
}

/// Encodes a message, reporting a failure as invalid DNS data.
fn encode_or_invalid(m: &Message) -> (r: Result<Vec<u8>, std::io::Error>)
    ensures
        r is Ok <==> dns_encoding(*m) is Some,
        r matches Ok(w) ==> dns_encoding(*m) == Some(w@),
        local_reply(r, message_view(*m)),
{
    match dns_encode(m) {
        Ok(w) => Ok(w),
        Err(e) => {
            assert(dns_encoding(*m) is None);
            Err(invalid_dns(e))
        },
    }
}

/// The query asked upstream in place of `v`: its first question renamed
/// to `name`.
pub open spec fn forwarded_query(v: MessageView, name: Seq<char>) -> MessageView {
    with_questions(v, v.questions.update(0, (name, v.questions[0].1)))
}

/// The local reply to the query `v`: its header marked as a response,
/// its questions, these answers and no other records.
pub open spec fn local_view(v: MessageView, answers: Seq<AnswerView>) -> MessageView {
    MessageView {
        header: HeaderView { response: true, ..v.header },
        questions: v.questions,
        answers,
        authorities: Seq::empty(),
        additionals: Seq::empty(),
    }
}

/// What a reply to the query `v` is, given the upstream reply `y` and the
/// answers it should carry once edited: an error when the upstream call
/// failed, its reply is not a DNS message or the edit fails; otherwise the
/// upstream reply with the questions of `v` and the edited answers,
/// encoded.
pub open spec fn upstream_reply(
    v: MessageView,
    y: Result<Vec<u8>, std::io::Error>,
    edit_ok: spec_fn(Seq<AnswerView>) -> bool,
    edit: spec_fn(Seq<AnswerView>) -> Seq<AnswerView>,
    r: Result<Vec<u8>, std::io::Error>,
) -> bool {
    match y {
        Err(_) => r is Err,
        Ok(reply) => match dns_decoding(reply@) {
            None => r is Err,
            Some(d) => if !edit_ok(d.answers) {
                r is Err
            } else {
                local_reply(r, with_questions(with_answers(d, edit(d.answers)), v.questions))
            },
        },
    }
}

/// Answers one DNS query while the server name is redirected: A and AAAA
/// questions for `server_name` are answered locally when the server
/// address is an IP literal, or asked of `resolver` for
/// `server_address` with the answers renamed back; everything else goes to
/// `resolver` unchanged.
pub fn resolve_with_server_redirect<F: Fn(&[u8]) -> Result<Vec<u8>, std::io::Error>>(
    resolver: &F,
    server_name: &str,
    server_address: &str,
    query: &[u8],
) -> (r: Result<Vec<u8>, std::io::Error>)
    requires
        forall|x: &[u8]| call_requires(*resolver, (x,)),
    ensures
        match dns_decoding(query@) {
            None => r is Err,
            Some(v) => match crate::dns::redirect_plan_spec(
                first_of(v.questions),
                server_name@,
                crate::ip::ip_literal_spec(server_address@),
            ) {
                RedirectPlan::PassThrough => call_ensures(*resolver, (query,), r),
                RedirectPlan::Synthesize(ip) => local_reply(
                    r,
                    local_view(v, synthesized_answers(v.questions, ip)),
                ),
                RedirectPlan::Forward => match ascii_name(server_address@) {
                    None => r is Err,
                    Some(address) => (r is Err && fails_to_encode(forwarded_query(v, address))) || exists|
                        x: &[u8],
                        y: Result<Vec<u8>, std::io::Error>,
                    |
                        #![trigger call_ensures(*resolver, (x,), y)]
                        call_ensures(*resolver, (x,), y) && encodes_as(x@, forwarded_query(v, address)) && upstream_reply(
                            v,
                            y,
                            |answers: Seq<AnswerView>| ascii_name(server_name@) is Some || !renames_some(answers, server_address@),
                            |answers: Seq<AnswerView>| renamed_answers(answers, server_address@, ascii_name(server_name@).unwrap()),
                            r,
                        ),
                },
            },
        },
{
    let request = match dns_decode(query) {
        Ok(m) => m,
        Err(e) => return Err(invalid_dns(e)),
    };
    let question = dns_first_question(&request);
    let server_ip = crate::ip::ip_literal(server_address);
    let plan = plan_server_redirect(question_of(&question), server_name, server_ip);
    let ghost v = message_view(request);
    match plan {
        RedirectPlan::PassThrough => resolver(query),
        RedirectPlan::Synthesize(ip) => {
            let mut response = dns_into_response(dns_clone(&request));
            dns_clear_records(&mut response);
            match ip {
                Some(ip) => dns_add_address_answer(&mut response, ip),
                None => {},
            }
            proof {
                assert(dns_answers(response) =~= synthesized_answers(v.questions, ip));
            }
            encode_or_invalid(&response)
        },
        RedirectPlan::Forward => {
            let mut redirected = dns_clone(&request);
            match dns_set_question_name(&mut redirected, server_address) {
                Ok(()) => {},
                Err(e) => return Err(invalid_dns(e)),
            }
            let ghost address = ascii_name(server_address@).unwrap();
            assert(message_view(redirected) == forwarded_query(v, address));
            let wire = match encode_or_invalid(&redirected) {
                Ok(w) => w,
                Err(e) => return Err(e),
            };
            let asked = wire.as_slice();
            let reply = resolver(asked);
            let ghost y = reply;
            let ghost edit_ok = |answers: Seq<AnswerView>| ascii_name(server_name@) is Some || !renames_some(answers, server_address@);
            let ghost edit = |answers: Seq<AnswerView>| renamed_answers(answers, server_address@, ascii_name(server_name@).unwrap());
            let response_wire = match reply {
                Ok(w) => w,
                Err(e) => {
                    assert(upstream_reply(v, y, edit_ok, edit, Err::<Vec<u8>, std::io::Error>(e)));
                    return Err(e);
                },
            };
            let mut response = match dns_decode(response_wire.as_slice()) {
                Ok(m) => m,
                Err(e) => {
                    let r = Err(invalid_dns(e));
                    assert(upstream_reply(v, y, edit_ok, edit, r));
                    return r;
                },
            };
            let ghost d = message_view(response);
            dns_copy_questions(&mut response, &request);
            match rename_forwarded_answers(&mut response, server_name, server_address) {
                Ok(()) => {},
                Err(e) => {
                    let r = Err(invalid_dns(e));
                    assert(upstream_reply(v, y, edit_ok, edit, r));
                    return r;
                },
            }
            assert(message_view(response) == with_questions(with_answers(d, edit(d.answers)), v.questions));
            let r = encode_or_invalid(&response);
            assert(upstream_reply(v, y, edit_ok, edit, r));
            assert(call_ensures(*resolver, (asked,), y));
            r
        },
    }
}

/// Whether ECH handling applies to a query: an HTTPS question for the
/// server name.
pub open spec fn ech_applies(question: Option<(Seq<char>, u16)>, options: EchOptions) -> bool {
    question matches Some(q) && q.1 == RECORD_TYPE_HTTPS && crate::dns::matches_server_name_spec(
        q.0,
        options.server_name@,
    )
}

/// The answers of a redirected HTTPS query, renamed back to the server
/// name (each edit succeeding).
pub open spec fn edited_answers(answers: Seq<AnswerView>, from: Seq<char>, to: Seq<char>) -> Seq<AnswerView> {
    answers.map_values(|a: AnswerView| edited_answer(a, from, to).unwrap())
}

/// Whether every answer of a redirected HTTPS query can be renamed back.
pub open spec fn all_edited(answers: Seq<AnswerView>, from: Seq<char>, to: Seq<char>) -> bool {
    forall|i: int| 0 <= i < answers.len() ==> (#[trigger] edited_answer(answers[i], from, to)) is Some
}

/// The answers without the IP address hints of their HTTPS records.
pub open spec fn without_hints(answers: Seq<AnswerView>) -> Seq<AnswerView> {
    answers.map_values(|a: AnswerView| hints_dropped(a))
}

/// The answer that ECH injects for the HTTPS question `name`, targeting
/// `target`.
pub open spec fn injected_answer(name: Seq<char>, target: Seq<char>, options: EchOptions) -> AnswerView {
    https_answer(name, target, crate::dns::injected_params(name, options.quic, options.config_list@))
}

/// Answers one DNS query while ECH configuration is supplied: HTTPS
/// questions for the server name are answered locally with the fixed
/// ECHConfigList, or asked of `resolver` (for the query server name when
/// it differs, renaming the answers back) with IP hints dropped from the
/// HTTPS answers; everything else goes to `resolver` unchanged.
pub fn resolve_with_ech<F: Fn(&[u8]) -> Result<Vec<u8>, std::io::Error>>(
    resolver: &F,
    options: &EchOptions,
    query: &[u8],
) -> (r: Result<Vec<u8>, std::io::Error>)
    requires
        forall|x: &[u8]| call_requires(*resolver, (x,)),
    ensures
        match dns_decoding(query@) {
            None => r is Err,
            Some(v) => if !ech_applies(first_of(v.questions), *options) {
                call_ensures(*resolver, (query,), r)
            } else if options.config_list@.len() > 0 {
                match ascii_name(crate::dns::https_target_spec(v.questions[0].0)) {
                    None => r is Err,
                    Some(target) => local_reply(
                        r,
                        local_view(v, seq![injected_answer(v.questions[0].0, target, *options)]),
                    ),
                }
            } else if !crate::dns::same_dns_name_spec(crate::dns::query_server_name_of(*options), options.server_name@) {
                match ascii_name(
                    crate::dns::rewrite_https_query_name_spec(
                        v.questions[0].0,
                        options.server_name@,
                        crate::dns::query_server_name_of(*options),
                    ),
                ) {
                    None => r is Err,
                    Some(query_name) => (r is Err && fails_to_encode(forwarded_query(v, query_name))) || exists|
                        x: &[u8],
                        y: Result<Vec<u8>, std::io::Error>,
                    |
                        #![trigger call_ensures(*resolver, (x,), y)]
                        call_ensures(*resolver, (x,), y) && encodes_as(x@, forwarded_query(v, query_name)) && upstream_reply(
                            v,
                            y,
                            |answers: Seq<AnswerView>| all_edited(answers, crate::dns::query_server_name_of(*options), options.server_name@),
                            |answers: Seq<AnswerView>| without_hints(
                                edited_answers(answers, crate::dns::query_server_name_of(*options), options.server_name@),
                            ),
                            r,
                        ),
                }
            } else {
                exists|y: Result<Vec<u8>, std::io::Error>|
                    #![trigger call_ensures(*resolver, (query,), y)]
                    call_ensures(*resolver, (query,), y) && match y {
                        Err(_) => r is Err,
                        Ok(reply) => match dns_decoding(reply@) {
                            None => r is Err,
                            Some(d) => local_reply(r, with_answers(d, without_hints(d.answers))),
                        },
                    }
            },
        },
{
    let request = match dns_decode(query) {
        Ok(m) => m,
        Err(e) => return Err(invalid_dns(e)),
    };
    let question = dns_first_question(&request);
    let plan = plan_ech(question_of(&question), options);
    let ghost v = message_view(request);
    let ghost questions = v.questions;
    match plan {
        EchPlan::PassThrough => resolver(query),
        EchPlan::Inject { target, params } => {
            let mut response = dns_into_response(dns_clone(&request));
            dns_clear_records(&mut response);
            match dns_add_https_answer(&mut response, target.as_str(), params) {
                Ok(()) => {},
                Err(e) => return Err(invalid_dns(e)),
            }
            proof {
                let name = questions[0].0;
                assert(dns_answers(response) =~= seq![injected_answer(name, ascii_name(target@).unwrap(), *options)]);
            }
            encode_or_invalid(&response)
        },
        EchPlan::Redirect { query_name, from } => {
            let mut redirected = dns_clone(&request);
            match dns_set_question_name(&mut redirected, query_name.as_str()) {
                Ok(()) => {},
                Err(e) => return Err(invalid_dns(e)),
            }
            let ghost qn = ascii_name(query_name@).unwrap();
            assert(message_view(redirected) == forwarded_query(v, qn));
            let wire = match encode_or_invalid(&redirected) {
                Ok(w) => w,
                Err(e) => return Err(e),
            };
            let asked = wire.as_slice();
            let reply = resolver(asked);
            let ghost y = reply;
            let ghost qsn = crate::dns::query_server_name_of(*options);
            let ghost edit_ok = |answers: Seq<AnswerView>| all_edited(answers, qsn, options.server_name@);
            let ghost edit = |answers: Seq<AnswerView>| without_hints(edited_answers(answers, qsn, options.server_name@));
            let response_wire = match reply {
                Ok(w) => w,
                Err(e) => {
                    assert(upstream_reply(v, y, edit_ok, edit, Err::<Vec<u8>, std::io::Error>(e)));
                    return Err(e);
                },
            };
            let mut response = match dns_decode(response_wire.as_slice()) {
                Ok(m) => m,
                Err(e) => {
                    let r = Err(invalid_dns(e));
                    assert(upstream_reply(v, y, edit_ok, edit, r));
                    return r;
                },
            };
            let ghost d = message_view(response);
            dns_copy_questions(&mut response, &request);
            match rewrite_https_answers(&mut response, from.as_str(), options.server_name.as_str()) {
                Ok(()) => {},
                Err(e) => {
                    let r = Err(invalid_dns(e));
                    assert(upstream_reply(v, y, edit_ok, edit, r));
                    return r;
                },
            }
            let ghost edited = dns_answers(response);
            assert(edited =~= edited_answers(d.answers, qsn, options.server_name@));
            filter_ip_hints(&mut response);
            assert(message_view(response) == with_questions(with_answers(d, edit(d.answers)), v.questions));
            let r = encode_or_invalid(&response);
            assert(upstream_reply(v, y, edit_ok, edit, r));
            assert(call_ensures(*resolver, (asked,), y));
            r
        },
        EchPlan::Resolve => {
            let reply = resolver(query);
            let ghost y = reply;
            let response_wire = match reply {
                Ok(w) => w,
                Err(e) => return Err(e),
            };
            let mut response = match dns_decode(response_wire.as_slice()) {
                Ok(m) => m,
                Err(e) => return Err(invalid_dns(e)),
            };
            let ghost d = message_view(response);
            filter_ip_hints(&mut response);
            assert(message_view(response) == with_answers(d, without_hints(d.answers)));
            let r = encode_or_invalid(&response);
            assert(call_ensures(*resolver, (query,), y));
            r
        },
    }
}

} // verus!
