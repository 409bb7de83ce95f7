use vstd::prelude::*;

verus! {

/// Heading depth. The enumeration is closed: levels outside one through six
/// cannot be written down at all.
#[derive(Clone, Copy, Debug, PartialEq, Eq, Structural)]
pub enum HeadingLevel {
    H1,
    H2,
    H3,
    H4,
    H5,
    H6,
}

/// How a code block was introduced in the source document.
#[derive(Clone, Debug)]
pub enum CodeBlockKind {
    /// A block formed by indentation; it names no language.
    Indented,
    /// A block fenced by backticks, carrying the (possibly empty) info string.
    Fenced(String),
}

/// The closed set of container kinds a document can contain. Each container
/// owns the events between its start and its matching end.
#[derive(Clone, Debug)]
pub enum ElementKind {
    Paragraph,
    Heading(HeadingLevel),
    BlockQuote,
    CodeBlock(CodeBlockKind),
    /// `Some(n)` is an ordered list starting at `n`; `None` an unordered list.
    List(Option<u64>),
    ListItem,
    Emphasis,
    Strong,
    Strikethrough,
    Link { url: String, title: String },
    Image { url: String, title: String },
    Table,
    TableHead,
    TableRow,
    TableCell,
    FootnoteDefinition(String),
    HtmlBlock,
    DefinitionList,
    DefinitionTerm,
    DefinitionDescription,
    Superscript,
    Subscript,
    MetadataBlock,
}

/// One unit of the flat, ordered description of a parsed document, as the
/// external tokenizer hands it over.
#[derive(Clone, Debug)]
pub enum Event {
    /// Opens a container; its children are the events up to the matching end.
    StartElement(ElementKind),
    /// Closes the innermost open container.
    EndElement,
    Text(String),
    InlineCode(String),
    /// A run of raw inline HTML, passed through or escaped per configuration.
    RawInlineHtml(String),
    SoftBreak,
    HardBreak,
    ThematicBreak,
    FootnoteReference(String),
    TaskMarker(bool),
    InlineMath(String),
    DisplayMath(String),
}

impl Event {
    /// Whether the event opens a container.
    pub open spec fn is_start(self) -> bool {
        self is StartElement
    }

    /// Whether the event closes a container.
    pub open spec fn is_end(self) -> bool {
        self is EndElement
    }

    /// How the event changes the nesting depth of a forward scan.
    pub open spec fn depth_change(self) -> int {
        match self {
            Event::StartElement(_) => 1,
            Event::EndElement => -1,
            _ => 0,
        }
    }
}

} // verus!
