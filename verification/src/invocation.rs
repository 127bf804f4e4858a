//! The invocation model: one remote call in flight, with its method, its
//! parameters and arguments, and two independent maps of metadata.

use crate::attachments::contains_key;
use crate::attachments::entries;
use crate::attachments::get;
use crate::attachments::insert;
use crate::attachments::new_map;
use crate::attachments::snapshot;
use crate::value::copy_texts;
use crate::value::copy_values;
use crate::value::texts_of;
use crate::value::values_of;
use crate::value::TypedValue;
use crate::value::TypedValueView;
use dashmap::DashMap;
use vstd::prelude::*;

verus! {

/// Names the result of a call without owning it.
#[derive(Clone, Copy, PartialEq, Eq, Structural, Debug)]
pub struct ReplyHandle(pub u64);

/// Names the component that executes a call without owning it.
#[derive(Clone, Copy, PartialEq, Eq, Structural, Debug)]
pub struct InvokerHandle(pub u64);

/// An invocation as a mathematical value.
#[verifier::ext_equal]
pub struct InvocationView {
    pub method_name: Seq<char>,
    pub parameter_type_names: Seq<Seq<char>>,
    pub parameter_values: Seq<TypedValueView>,
    pub arguments: Seq<TypedValueView>,
    pub reply: Option<ReplyHandle>,
    pub invoker: Option<InvokerHandle>,
    /// Metadata that crosses the wire.
    pub attachments: Map<Seq<char>, TypedValueView>,
    /// Metadata that stays in this process.
    pub attributes: Map<Seq<char>, TypedValueView>,
}

impl InvocationView {
    /// The invocation that a builder starts from: everything empty or
    /// absent.
    pub open spec fn empty() -> InvocationView {
        InvocationView {
            method_name: Seq::empty(),
            parameter_type_names: Seq::empty(),
            parameter_values: Seq::empty(),
            arguments: Seq::empty(),
            reply: None,
            invoker: None,
            attachments: Map::empty(),
            attributes: Map::empty(),
        }
    }

    /// Whether the invocation can be handed to a service: it names a method,
    /// and it has one type name for each parameter value.
    pub open spec fn complete(self) -> bool {
        &&& self.method_name.len() > 0
        &&& self.parameter_type_names.len() == self.parameter_values.len()
    }

    pub open spec fn with_attachment(self, key: Seq<char>, value: TypedValueView) -> InvocationView {
        InvocationView { attachments: self.attachments.insert(key, value), ..self }
    }

    pub open spec fn with_attribute(self, key: Seq<char>, value: TypedValueView) -> InvocationView {
        InvocationView { attributes: self.attributes.insert(key, value), ..self }
    }
}

/// What every invocation offers, whatever protocol carries it. The
/// accessors hand out copies: a caller that changes its copy changes nothing
/// in the invocation.
pub trait Invocation {
    /// The invocation as a mathematical value.
    spec fn state(&self) -> InvocationView;

    fn method_name(&self) -> (name: String)
        ensures
            name@ == self.state().method_name,
    ;

    fn parameter_type_names(&self) -> (names: Vec<String>)
        ensures
            texts_of(names@) == self.state().parameter_type_names,
    ;

    fn parameter_values(&self) -> (values: Vec<TypedValue>)
        ensures
            values_of(values@) == self.state().parameter_values,
    ;

    fn arguments(&self) -> (values: Vec<TypedValue>)
        ensures
            values_of(values@) == self.state().arguments,
    ;

    /// The handle of the reply, absent until the call has completed.
    fn reply(&self) -> (handle: Option<ReplyHandle>)
        ensures
            handle == self.state().reply,
    ;

    /// The handle of the invoker, absent until the invocation has been
    /// routed.
    fn invoker(&self) -> (handle: Option<InvokerHandle>)
        ensures
            handle == self.state().invoker,
    ;

    fn attachments(&self) -> (map: DashMap<String, TypedValue>)
        ensures
            entries(map) == self.state().attachments,
    ;

    fn get_attachment(&self, key: &str) -> (value: Option<TypedValue>)
        ensures
            value is Some == self.state().attachments.contains_key(key@),
            value matches Some(v) ==> v@ == self.state().attachments[key@],
    ;

    /// Sets the attachment `key`, in place of any value it had. Nothing else
    /// changes: an attribute under the same key is untouched.
    fn set_attachment(&mut self, key: &str, value: TypedValue)
        ensures
            final(self).state() == old(self).state().with_attachment(key@, value@),
    ;

    fn attributes(&self) -> (map: DashMap<String, TypedValue>)
        ensures
            entries(map) == self.state().attributes,
    ;

    fn get_attribute(&self, key: &str) -> (value: Option<TypedValue>)
        ensures
            value is Some == self.state().attributes.contains_key(key@),
            value matches Some(v) ==> v@ == self.state().attributes[key@],
    ;

    /// The attribute `key`, or `default` where there is none.
    fn get_attribute_with_default(&self, key: &str, default: TypedValue) -> (value: TypedValue)
        ensures
            value@ == if self.state().attributes.contains_key(key@) {
                self.state().attributes[key@]
            } else {
                default@
            },
    ;

    /// Sets the attribute `key`, in place of any value it had. Nothing else
    /// changes: an attachment under the same key is untouched.
    fn set_attribute(&mut self, key: &str, value: TypedValue)
        ensures
            final(self).state() == old(self).state().with_attribute(key@, value@),
    ;
}

/// One RPC call in flight.
#[derive(Debug)]
pub struct RpcInvocation {
    method_name: String,
    parameter_type_names: Vec<String>,
    parameter_values: Vec<TypedValue>,
    arguments: Vec<TypedValue>,
    reply: Option<ReplyHandle>,
    invoker: Option<InvokerHandle>,
    attachments: DashMap<String, TypedValue>,
    attributes: DashMap<String, TypedValue>,
}

impl View for RpcInvocation {
    type V = InvocationView;

    closed spec fn view(&self) -> InvocationView {
        InvocationView {
            method_name: self.method_name@,
            parameter_type_names: texts_of(self.parameter_type_names@),
            parameter_values: values_of(self.parameter_values@),
            arguments: values_of(self.arguments@),
            reply: self.reply,
            invoker: self.invoker,
            attachments: entries(self.attachments),
            attributes: entries(self.attributes),
        }
    }
}

impl Default for RpcInvocation {
    fn default() -> (invocation: RpcInvocation)
        ensures
            invocation@ == InvocationView::empty(),
    {
        RpcInvocation {
            method_name: String::new(),
            parameter_type_names: Vec::new(),
            parameter_values: Vec::new(),
            arguments: Vec::new(),
            reply: None,
            invoker: None,
            attachments: new_map(),
            attributes: new_map(),
        }
    }
}

impl Clone for RpcInvocation {
    /// A second invocation with the same content and with metadata maps of
    /// its own.
    fn clone(&self) -> (copy: RpcInvocation)
        ensures
            copy@ == self@,
    {
        RpcInvocation {
            method_name: self.method_name.clone(),
            parameter_type_names: copy_texts(&self.parameter_type_names),
            parameter_values: copy_values(&self.parameter_values),
            arguments: copy_values(&self.arguments),
            reply: self.reply,
            invoker: self.invoker,
            attachments: snapshot(&self.attachments),
            attributes: snapshot(&self.attributes),
        }
    }
}

impl RpcInvocation {
    /// Starts an invocation with everything empty or absent.
    pub fn builder() -> (invocation: RpcInvocation)
        ensures
            invocation@ == InvocationView::empty(),
    {
        RpcInvocation::default()
    }

    pub fn set_method_name(self, method_name: &str) -> (invocation: RpcInvocation)
        ensures
            invocation@ == (InvocationView { method_name: method_name@, ..self@ }),
    {
        let mut invocation = self;
        invocation.method_name = method_name.to_owned();
        invocation
    }

    pub fn set_parameter_type_names(self, parameter_type_names: Vec<String>) -> (invocation:
        RpcInvocation)
        ensures
            invocation@ == (InvocationView {
                parameter_type_names: texts_of(parameter_type_names@),
                ..self@
            }),
    {
        let mut invocation = self;
        invocation.parameter_type_names = parameter_type_names;
        invocation
    }

    pub fn set_parameter_values(self, parameter_values: Vec<TypedValue>) -> (invocation:
        RpcInvocation)
        ensures
            invocation@ == (InvocationView {
                parameter_values: values_of(parameter_values@),
                ..self@
            }),
    {
        let mut invocation = self;
        invocation.parameter_values = parameter_values;
        invocation
    }

    pub fn set_arguments(self, arguments: Vec<TypedValue>) -> (invocation: RpcInvocation)
        ensures
            invocation@ == (InvocationView { arguments: values_of(arguments@), ..self@ }),
    {
        let mut invocation = self;
        invocation.arguments = arguments;
        invocation
    }

    /// Binds the invoker that will execute the call.
    pub fn set_invoker(&mut self, invoker: InvokerHandle)
        ensures
            final(self)@ == (InvocationView { invoker: Some(invoker), ..old(self)@ }),
    {
        self.invoker = Some(invoker);
    }

    /// Records the reply of the completed call.
    pub fn set_reply(&mut self, reply: ReplyHandle)
        ensures
            final(self)@ == (InvocationView { reply: Some(reply), ..old(self)@ }),
    {
        self.reply = Some(reply);
    }

    /// Whether the invocation names a method and has one type name for each
    /// parameter value.
    pub fn is_complete(&self) -> (complete: bool)
        ensures
            complete == self@.complete(),
    {
        !self.method_name.as_str().is_empty() && self.parameter_type_names.len()
            == self.parameter_values.len()
    }
}

impl Invocation for RpcInvocation {
    open spec fn state(&self) -> InvocationView {
        self@
    }

    fn method_name(&self) -> (name: String) {
        self.method_name.clone()
    }

    fn parameter_type_names(&self) -> (names: Vec<String>) {
        copy_texts(&self.parameter_type_names)
    }

    fn parameter_values(&self) -> (values: Vec<TypedValue>) {
        copy_values(&self.parameter_values)
    }

    fn arguments(&self) -> (values: Vec<TypedValue>) {
        copy_values(&self.arguments)
    }

    fn reply(&self) -> (handle: Option<ReplyHandle>) {
        self.reply
    }

    fn invoker(&self) -> (handle: Option<InvokerHandle>) {
        self.invoker
    }

    fn attachments(&self) -> (map: DashMap<String, TypedValue>) {
        snapshot(&self.attachments)
    }

    fn get_attachment(&self, key: &str) -> (value: Option<TypedValue>) {
        get(&self.attachments, key)
    }

    fn set_attachment(&mut self, key: &str, value: TypedValue) {
        let _ = insert(&mut self.attachments, key.to_owned(), value);
    }

    fn attributes(&self) -> (map: DashMap<String, TypedValue>) {
        snapshot(&self.attributes)
    }

    fn get_attribute(&self, key: &str) -> (value: Option<TypedValue>) {
        if contains_key(&self.attributes, key) {
            get(&self.attributes, key)
        } else {
            None
        }
    }

    fn get_attribute_with_default(&self, key: &str, default: TypedValue) -> (value: TypedValue) {
        match get(&self.attributes, key) {
            Some(value) => value,
            None => default,
        }
    }

    fn set_attribute(&mut self, key: &str, value: TypedValue) {
        let _ = insert(&mut self.attributes, key.to_owned(), value);
    }
}

/// Attachments and attributes are separate namespaces: setting an
/// attachment leaves every attribute as it was, the one under the same key
/// included, and setting an attribute leaves every attachment as it was.
pub proof fn lemma_metadata_independent(
    invocation: InvocationView,
    key: Seq<char>,
    value: TypedValueView,
    other: Seq<char>,
)
    ensures
        invocation.with_attachment(key, value).attributes == invocation.attributes,
        invocation.with_attachment(key, value).attributes.contains_key(other)
            == invocation.attributes.contains_key(other),
        invocation.with_attachment(key, value).attributes[other] == invocation.attributes[other],
        invocation.with_attribute(key, value).attachments == invocation.attachments,
        invocation.with_attribute(key, value).attachments.contains_key(other)
            == invocation.attachments.contains_key(other),
        invocation.with_attribute(key, value).attachments[other] == invocation.attachments[other],
{
}

} // verus!
