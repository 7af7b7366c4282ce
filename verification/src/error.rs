//! Why generation can fail.

use vstd::prelude::*;

verus! {

/// The reason for which no code was generated. Where a name was refused, the
/// error holds that name as it was given.
#[derive(Debug, PartialEq, Eq)]
pub enum MangleError {
    /// The package is no dotted name of Java identifiers.
    InvalidPackage(String),
    /// The class is no dotted name of Java identifiers.
    InvalidClass(String),
    /// The method is no Java identifier.
    InvalidMethod(String),
    /// An alias was asked for a function that takes `self`, which a
    /// forwarding call cannot hand on.
    UnsupportedReceiverParameter,
}

/// What a [`MangleError`] is, as plain text.
pub enum MangleErrorView {
    InvalidPackage(Seq<char>),
    InvalidClass(Seq<char>),
    InvalidMethod(Seq<char>),
    UnsupportedReceiverParameter,
}

impl MangleErrorView {
    /// The message that describes the error.
    pub open spec fn message(self) -> Seq<char> {
        match self {
            MangleErrorView::InvalidPackage(_) => "Invalid Java package name"@,
            MangleErrorView::InvalidClass(_) => "Invalid Java class name"@,
            MangleErrorView::InvalidMethod(_) => "Invalid Java method name"@,
            MangleErrorView::UnsupportedReceiverParameter => {
                "Cannot alias a method with a receiver"@
            },
        }
    }

    /// The name that was refused, where the error is about one.
    pub open spec fn fragment(self) -> Option<Seq<char>> {
        match self {
            MangleErrorView::InvalidPackage(name) => Some(name),
            MangleErrorView::InvalidClass(name) => Some(name),
            MangleErrorView::InvalidMethod(name) => Some(name),
            MangleErrorView::UnsupportedReceiverParameter => None,
        }
    }
}

impl View for MangleError {
    type V = MangleErrorView;

    open spec fn view(&self) -> MangleErrorView {
        match self {
            MangleError::InvalidPackage(name) => MangleErrorView::InvalidPackage(name@),
            MangleError::InvalidClass(name) => MangleErrorView::InvalidClass(name@),
            MangleError::InvalidMethod(name) => MangleErrorView::InvalidMethod(name@),
            MangleError::UnsupportedReceiverParameter => {
                MangleErrorView::UnsupportedReceiverParameter
            },
        }
    }
}

impl Clone for MangleError {
    fn clone(&self) -> (copy: Self)
        ensures
            copy@ == self@,
    {
        match self {
            MangleError::InvalidPackage(name) => MangleError::InvalidPackage(name.clone()),
            MangleError::InvalidClass(name) => MangleError::InvalidClass(name.clone()),
            MangleError::InvalidMethod(name) => MangleError::InvalidMethod(name.clone()),
            MangleError::UnsupportedReceiverParameter => MangleError::UnsupportedReceiverParameter,
        }
    }
}

impl MangleError {
    /// The message that describes the error.
    pub fn message(&self) -> (text: String)
        ensures
            text@ == self@.message(),
    {
        match self {
            MangleError::InvalidPackage(_) => "Invalid Java package name".to_owned(),
            MangleError::InvalidClass(_) => "Invalid Java class name".to_owned(),
            MangleError::InvalidMethod(_) => "Invalid Java method name".to_owned(),
            MangleError::UnsupportedReceiverParameter => {
                "Cannot alias a method with a receiver".to_owned()
            },
        }
    }

    /// The name that was refused, where the error is about one.
    pub fn fragment(&self) -> (name: Option<&String>)
        ensures
            match name {
                Some(name) => self@.fragment() == Some(name@),
                None => self@.fragment() is None,
            },
    {
        match self {
            MangleError::InvalidPackage(name) => Some(name),
            MangleError::InvalidClass(name) => Some(name),
            MangleError::InvalidMethod(name) => Some(name),
            MangleError::UnsupportedReceiverParameter => None,
        }
    }
}

} // verus!
