//! The errors of the behavior-tree factory, and their messages.

use vstd::prelude::*;
use roxmltree::Error as XmlError;
use vstd::string::*;
use crate::step::{BehaviorError, BehaviorErrorView};
use crate::text::{concat3, decimal, push_decimal, push_text, string_from_chars};

verus! {

/// Declares `std::str::ParseBoolError`, the error of parsing a `bool`.
#[verifier::external_type_specification]
#[verifier::external_body]
pub struct ExParseBoolError(std::str::ParseBoolError);

/// Declares `std::string::FromUtf8Error`, the error of decoding UTF-8 bytes.
#[verifier::external_type_specification]
#[verifier::external_body]
pub struct ExFromUtf8Error(std::string::FromUtf8Error);

/// The errors of the factory.
#[derive(Debug)]
pub enum Error {
    /// the attribute `BTCPP_format` is not `4`
    BtCppFormat,
    /// a behavior of this category has children
    ChildrenNotAllowed(String),
    /// an error of a behavior
    DimasCoreBehavior(BehaviorError),
    /// a decorator does not have exactly one child
    DecoratorChildren(String),
    /// an element that may not stand where it stands
    ElementNotSupported(String),
    /// a subtree that contains itself: the path and the subtree
    LoopDetected(String, String),
    /// a subtree definition names a main tree
    MainTreeNotAllowed,
    /// an attribute is missing
    MissingAttribute(String),
    /// an element without its `ID` attribute
    MissingId(String),
    /// an element without its end tag
    MissingEndTag(String),
    /// a tag is missing
    MissingTag(String),
    /// no main tree
    NoMainTree,
    /// no behavior content
    NoTreeContent,
    /// no attribute `main_tree_to_execute`
    NoTreeToExecute,
    /// a value that is not a `bool`
    ParseBool(std::str::ParseBoolError),
    /// a port value that is not an expression, with what the expression parser
    /// said of it
    PortExpressionInvalid(String),
    /// a variable of an expression with a type that is not allowed: the type and
    /// the variable
    PortExpressionInvalidType(String, String),
    /// a variable of an expression without a type
    PortExpressionMissingType(String),
    /// a port that the behavior does not have: the port, the behavior and the
    /// ports it has
    PortInvalid(String, String, Vec<String>),
    /// a port without a default value: the port and the behavior's path
    PortWithoutDefault(String, String),
    /// the root element is not named `root`
    RootName,
    /// the text is not well-formed XML
    RoXmlTree(XmlError),
    /// a behavior that is neither registered nor defined as a subtree
    UnknownBehavior(String),
    /// an element that is not known
    UnknownElement(String),
    /// a processing instruction
    UnkownProcessingInstruction,
    /// something unexpected: what, in which file and at which line
    Unexpected(String, String, u32),
    /// bytes that are not UTF-8
    Utf8(std::string::FromUtf8Error),
}

/// The value of an [`Error`]; the errors of other libraries are not looked into.
pub enum ErrorView {
    BtCppFormat,
    ChildrenNotAllowed(Seq<char>),
    DimasCoreBehavior(BehaviorErrorView),
    DecoratorChildren(Seq<char>),
    ElementNotSupported(Seq<char>),
    LoopDetected(Seq<char>, Seq<char>),
    MainTreeNotAllowed,
    MissingAttribute(Seq<char>),
    MissingId(Seq<char>),
    MissingEndTag(Seq<char>),
    MissingTag(Seq<char>),
    NoMainTree,
    NoTreeContent,
    NoTreeToExecute,
    ParseBool,
    PortExpressionInvalid(Seq<char>),
    PortExpressionInvalidType(Seq<char>, Seq<char>),
    PortExpressionMissingType(Seq<char>),
    PortInvalid(Seq<char>, Seq<char>, Seq<Seq<char>>),
    PortWithoutDefault(Seq<char>, Seq<char>),
    RootName,
    RoXmlTree,
    UnknownBehavior(Seq<char>),
    UnknownElement(Seq<char>),
    UnkownProcessingInstruction,
    Unexpected(Seq<char>, Seq<char>, u32),
    Utf8,
}

/// The texts of a list of strings.
pub open spec fn strings_view(v: Seq<String>) -> Seq<Seq<char>> {
    v.map_values(|s: String| s@)
}

impl View for Error {
    type V = ErrorView;

    open spec fn view(&self) -> ErrorView {
        match self {
            Error::BtCppFormat => ErrorView::BtCppFormat,
            Error::ChildrenNotAllowed(s) => ErrorView::ChildrenNotAllowed(s@),
            Error::DimasCoreBehavior(e) => ErrorView::DimasCoreBehavior(e@),
            Error::DecoratorChildren(s) => ErrorView::DecoratorChildren(s@),
            Error::ElementNotSupported(s) => ErrorView::ElementNotSupported(s@),
            Error::LoopDetected(a, b) => ErrorView::LoopDetected(a@, b@),
            Error::MainTreeNotAllowed => ErrorView::MainTreeNotAllowed,
            Error::MissingAttribute(s) => ErrorView::MissingAttribute(s@),
            Error::MissingId(s) => ErrorView::MissingId(s@),
            Error::MissingEndTag(s) => ErrorView::MissingEndTag(s@),
            Error::MissingTag(s) => ErrorView::MissingTag(s@),
            Error::NoMainTree => ErrorView::NoMainTree,
            Error::NoTreeContent => ErrorView::NoTreeContent,
            Error::NoTreeToExecute => ErrorView::NoTreeToExecute,
            Error::ParseBool(_) => ErrorView::ParseBool,
            Error::PortExpressionInvalid(m) => ErrorView::PortExpressionInvalid(m@),
            Error::PortExpressionInvalidType(a, b) => ErrorView::PortExpressionInvalidType(a@, b@),
            Error::PortExpressionMissingType(s) => ErrorView::PortExpressionMissingType(s@),
            Error::PortInvalid(a, b, v) => ErrorView::PortInvalid(a@, b@, strings_view(v@)),
            Error::PortWithoutDefault(a, b) => ErrorView::PortWithoutDefault(a@, b@),
            Error::RootName => ErrorView::RootName,
            Error::RoXmlTree(_) => ErrorView::RoXmlTree,
            Error::UnknownBehavior(s) => ErrorView::UnknownBehavior(s@),
            Error::UnknownElement(s) => ErrorView::UnknownElement(s@),
            Error::UnkownProcessingInstruction => ErrorView::UnkownProcessingInstruction,
            Error::Unexpected(a, b, n) => ErrorView::Unexpected(a@, b@, *n),
            Error::Utf8(_) => ErrorView::Utf8,
        }
    }
}

/// What `Debug` writes for a list of strings.
pub uninterp spec fn debug_list_text(items: Seq<Seq<char>>) -> Seq<char>;

/// Formats the list with `Debug`, as `format!("{:?}", ..)` does.
#[verifier::external_body]
fn debug_list(v: &Vec<String>) -> (r: String)
    ensures
        r@ == debug_list_text(strings_view(v@)),
{
    format!("{v:?}")
}

/// The message of an error whose parts are all of this library; `None` for the
/// errors that carry one of another library, whose message is made of that
/// error's own.
pub open spec fn error_text(e: ErrorView) -> Option<Seq<char>> {
    match e {
        ErrorView::BtCppFormat => Some("'BTCPP_format' must be '4'"@),
        ErrorView::ChildrenNotAllowed(s) => Some("children are not allowed for behavior category ["@ + s + "]"@),
        ErrorView::DimasCoreBehavior(b) => match b {
            BehaviorErrorView::NodeStructure(m) => Some(m),
            BehaviorErrorView::Status(n, s) => Some(n + " returned unexpected status "@ + s),
        },
        ErrorView::DecoratorChildren(s) => Some("decorator ["@ + s + "] must have 1 child"@),
        ErrorView::ElementNotSupported(s) => Some("element ["@ + s + "] is not supported"@),
        ErrorView::LoopDetected(a, b) => Some("loop in tree detected: ["@ + a + "] -> ["@ + b + "]"@),
        ErrorView::MainTreeNotAllowed => Some("attribute 'main_tree_to_execute' not allowed in subtree definition"@),
        ErrorView::MissingAttribute(s) => Some("missing attribute ["@ + s + "]"@),
        ErrorView::MissingId(s) => Some("missing attribute 'ID' in tag ["@ + s + "]"@),
        ErrorView::MissingEndTag(s) => Some("missing end tag for ["@ + s + "]"@),
        ErrorView::MissingTag(s) => Some("missing tag ["@ + s + "]"@),
        ErrorView::NoMainTree => Some("no main tree provided"@),
        ErrorView::NoTreeContent => Some("no behavior content found"@),
        ErrorView::NoTreeToExecute => Some("no 'main_tree_to_execute' provided"@),
        ErrorView::PortExpressionInvalid(m) => Some("Error parsing expression in port value: "@ + m),
        ErrorView::PortExpressionInvalidType(a, b) => Some("invalid type ["@ + a + "] for variable ["@ + b + "]"@),
        ErrorView::PortExpressionMissingType(s) => Some("variable in blackboard pointer ["@ + s + "] has no type"@),
        ErrorView::PortInvalid(a, b, v) => Some(
            "port name ["@ + a + "] does not match nodes ["@ + b + "] port list: "@ + debug_list_text(v),
        ),
        ErrorView::PortWithoutDefault(a, b) => Some("port ["@ + a + "] in ["@ + b + "]has no default value"@),
        ErrorView::RootName => Some("root element must be named 'root'"@),
        ErrorView::UnknownBehavior(s) => Some("unkown behavior ["@ + s + "]"@),
        ErrorView::UnknownElement(s) => Some("unkown element ["@ + s + "]"@),
        ErrorView::UnkownProcessingInstruction => Some("processing instructions are not supported"@),
        ErrorView::Unexpected(a, b, n) => Some(
            "unexpected ["@ + a + "] in file ["@ + b + "] at line ["@ + decimal(n as nat) + "]"@,
        ),
        _ => None,
    }
}

impl Error {
    /// The message of the error.
    pub fn message(&self) -> (r: String)
        ensures
            error_text(self@) matches Some(t) ==> r@ == t,
            self matches Error::RoXmlTree(e) ==> to_string_from_display_ensures::<XmlError>(&e, r),
            self matches Error::ParseBool(e) ==> to_string_from_display_ensures::<std::str::ParseBoolError>(&e, r),
            self matches Error::Utf8(e) ==> exists|d: String|
                to_string_from_display_ensures::<std::string::FromUtf8Error>(&e, d) && r@ == "Error parsing UTF8: "@
                    + d@,
    {
        match self {
            Error::BtCppFormat => String::from_str("'BTCPP_format' must be '4'"),
            Error::ChildrenNotAllowed(s) => concat3(
                "children are not allowed for behavior category [",
                s.as_str(),
                "]",
            ),
            Error::DimasCoreBehavior(b) => match b {
                BehaviorError::NodeStructure(m) => m.clone(),
                BehaviorError::Status(n, s) => concat3(n.as_str(), " returned unexpected status ", s.as_str()),
            },
            Error::DecoratorChildren(s) => concat3("decorator [", s.as_str(), "] must have 1 child"),
            Error::ElementNotSupported(s) => concat3("element [", s.as_str(), "] is not supported"),
            Error::LoopDetected(a, b) => {
                let mut buf: Vec<char> = Vec::new();
                push_text(&mut buf, "loop in tree detected: [");
                push_text(&mut buf, a.as_str());
                push_text(&mut buf, "] -> [");
                push_text(&mut buf, b.as_str());
                push_text(&mut buf, "]");
                string_from_chars(&buf)
            },
            Error::MainTreeNotAllowed => String::from_str(
                "attribute 'main_tree_to_execute' not allowed in subtree definition",
            ),
            Error::MissingAttribute(s) => concat3("missing attribute [", s.as_str(), "]"),
            Error::MissingId(s) => concat3("missing attribute 'ID' in tag [", s.as_str(), "]"),
            Error::MissingEndTag(s) => concat3("missing end tag for [", s.as_str(), "]"),
            Error::MissingTag(s) => concat3("missing tag [", s.as_str(), "]"),
            Error::NoMainTree => String::from_str("no main tree provided"),
            Error::NoTreeContent => String::from_str("no behavior content found"),
            Error::NoTreeToExecute => String::from_str("no 'main_tree_to_execute' provided"),
            Error::ParseBool(e) => e.to_string(),
            Error::PortExpressionInvalid(m) => {
                proof {
                    reveal_strlit("");
                }
                let r = concat3("Error parsing expression in port value: ", m.as_str(), "");
                assert(r@ =~= "Error parsing expression in port value: "@ + m@);
                r
            },
            Error::PortExpressionInvalidType(a, b) => {
                let mut buf: Vec<char> = Vec::new();
                push_text(&mut buf, "invalid type [");
                push_text(&mut buf, a.as_str());
                push_text(&mut buf, "] for variable [");
                push_text(&mut buf, b.as_str());
                push_text(&mut buf, "]");
                string_from_chars(&buf)
            },
            Error::PortExpressionMissingType(s) => concat3(
                "variable in blackboard pointer [",
                s.as_str(),
                "] has no type",
            ),
            Error::PortInvalid(a, b, v) => {
                let list = debug_list(v);
                let mut buf: Vec<char> = Vec::new();
                push_text(&mut buf, "port name [");
                push_text(&mut buf, a.as_str());
                push_text(&mut buf, "] does not match nodes [");
                push_text(&mut buf, b.as_str());
                push_text(&mut buf, "] port list: ");
                push_text(&mut buf, list.as_str());
                string_from_chars(&buf)
            },
            Error::PortWithoutDefault(a, b) => {
                let mut buf: Vec<char> = Vec::new();
                push_text(&mut buf, "port [");
                push_text(&mut buf, a.as_str());
                push_text(&mut buf, "] in [");
                push_text(&mut buf, b.as_str());
                push_text(&mut buf, "]has no default value");
                string_from_chars(&buf)
            },
            Error::RootName => String::from_str("root element must be named 'root'"),
            Error::RoXmlTree(e) => e.to_string(),
            Error::UnknownBehavior(s) => concat3("unkown behavior [", s.as_str(), "]"),
            Error::UnknownElement(s) => concat3("unkown element [", s.as_str(), "]"),
            Error::UnkownProcessingInstruction => String::from_str("processing instructions are not supported"),
            Error::Unexpected(a, b, n) => {
                let mut buf: Vec<char> = Vec::new();
                push_text(&mut buf, "unexpected [");
                push_text(&mut buf, a.as_str());
                push_text(&mut buf, "] in file [");
                push_text(&mut buf, b.as_str());
                push_text(&mut buf, "] at line [");
                push_decimal(&mut buf, *n);
                push_text(&mut buf, "]");
                string_from_chars(&buf)
            },
            Error::Utf8(e) => {
                let d = e.to_string();
                proof {
                    reveal_strlit("");
                }
                let r = concat3("Error parsing UTF8: ", d.as_str(), "");
                assert(r@ =~= "Error parsing UTF8: "@ + d@);
                r
            },
        }
    }
}

} // verus!
