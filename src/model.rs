use vstd::prelude::*;
use crate::address::Address;
use crate::text::text_is_empty;

verus! {

/// An explanation of one smart-contract function, as stored.
#[derive(Debug)]
pub struct Explaination {
    /// The identifier the store assigned; `None` before it is stored.
    pub id: Option<String>,
    pub package_id: Address,
    pub module_name: String,
    pub function_name: String,
    pub owner: Address,
    pub content: String,
}

/// The mathematical value of an [`Explaination`].
pub struct ExplainationView {
    pub id: Option<Seq<char>>,
    pub package_id: Seq<char>,
    pub module_name: Seq<char>,
    pub function_name: Seq<char>,
    pub owner: Seq<char>,
    pub content: Seq<char>,
}

impl View for Explaination {
    type V = ExplainationView;

    open spec fn view(&self) -> ExplainationView {
        ExplainationView {
            id: match self.id {
                Some(s) => Some(s@),
                None => None,
            },
            package_id: self.package_id@,
            module_name: self.module_name@,
            function_name: self.function_name@,
            owner: self.owner@,
            content: self.content@,
        }
    }
}

/// The record a store holds under `id` after being handed these fields.
pub open spec fn record_view(
    id: Seq<char>,
    package_id: Seq<char>,
    module_name: Seq<char>,
    function_name: Seq<char>,
    owner: Seq<char>,
    content: Seq<char>,
) -> ExplainationView {
    ExplainationView { id: Some(id), package_id, module_name, function_name, owner, content }
}

/// The same record with its content replaced.
pub open spec fn with_content(r: ExplainationView, content: Seq<char>) -> ExplainationView {
    ExplainationView { content, ..r }
}

pub(crate) fn clone_text_option(o: &Option<String>) -> (r: Option<String>)
    ensures
        r matches Some(s) ==> o matches Some(t) && s@ == t@,
        r is None <==> o is None,
{
    match o {
        Some(s) => Some(s.clone()),
        None => None,
    }
}

impl Explaination {
    /// A copy with equal fields.
    pub fn duplicate(&self) -> (r: Explaination)
        ensures
            r@ == self@,
    {
        Explaination {
            id: clone_text_option(&self.id),
            package_id: self.package_id.duplicate(),
            module_name: self.module_name.clone(),
            function_name: self.function_name.clone(),
            owner: self.owner.duplicate(),
            content: self.content.clone(),
        }
    }
}

/// What a client sends to create an explanation.
#[derive(Debug)]
pub struct CreateExplainationDto {
    pub package_id: Address,
    pub module_name: String,
    pub function_name: String,
    pub owner: Address,
    pub content: String,
}

/// A required text field that was left empty.
#[derive(Debug, Clone, Copy, PartialEq, Eq, Structural)]
pub enum FieldError {
    EmptyModuleName,
    EmptyFunctionName,
    EmptyContent,
}

/// The first empty required field of a request, if any.
pub open spec fn request_verdict(
    module_name: Seq<char>,
    function_name: Seq<char>,
    content: Seq<char>,
) -> Result<(), FieldError> {
    if module_name.len() == 0 {
        Err(FieldError::EmptyModuleName)
    } else if function_name.len() == 0 {
        Err(FieldError::EmptyFunctionName)
    } else if content.len() == 0 {
        Err(FieldError::EmptyContent)
    } else {
        Ok(())
    }
}

impl CreateExplainationDto {
    /// Checks that the module name, function name and content are not empty;
    /// the two addresses are valid by construction.
    pub fn validate(&self) -> (r: Result<(), FieldError>)
        ensures
            r == request_verdict(self.module_name@, self.function_name@, self.content@),
    {
        if text_is_empty(self.module_name.as_str()) {
            Err(FieldError::EmptyModuleName)
        } else if text_is_empty(self.function_name.as_str()) {
            Err(FieldError::EmptyFunctionName)
        } else if text_is_empty(self.content.as_str()) {
            Err(FieldError::EmptyContent)
        } else {
            Ok(())
        }
    }
}

} // verus!
