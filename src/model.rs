//! The structural description of the types to render.

use vstd::prelude::*;

verus! {

/// A scalar shape of the host language.
#[derive(PartialEq, Eq, Structural, Clone, Copy, Debug)]
pub enum Primitive {
    /// An unsigned byte.
    U8,
    /// Any other integer width.
    Int,
    /// A floating-point number.
    Float,
    /// A boolean.
    Bool,
    /// A string, a character or a file-system path.
    Text,
    /// A span of time.
    Duration,
    /// A point in time.
    SystemTime,
}

/// The shape of a field's type, as the front end resolved it.
pub enum TypeDescriptor {
    Primitive(Primitive),
    /// A named type, by its path; `args` are its generic arguments.
    Named { path: Vec<String>, args: Vec<TypeDescriptor> },
    ListLike(Box<TypeDescriptor>),
    MapLike(Box<TypeDescriptor>, Box<TypeDescriptor>),
    SetLike(Box<TypeDescriptor>),
    Optional(Box<TypeDescriptor>),
    ResultLike(Box<TypeDescriptor>, Box<TypeDescriptor>),
    Tuple(Vec<TypeDescriptor>),
    /// A reference or an ownership wrapper: no representation of its own.
    Reference(Box<TypeDescriptor>),
    /// A shape that has no rendering (a function, a trait object), with the reason.
    Unsupported(String),
}

/// One field of a record, a tuple or a variant.
pub struct Field {
    /// The serialized name.
    pub name: String,
    pub ty: TypeDescriptor,
    pub skip: bool,
    /// A target type given verbatim, which replaces the mapping of `ty`.
    pub type_override: Option<String>,
    /// Whether the field is serialized as a string of escaped bytes.
    pub is_byte_buffer: bool,
    pub flatten: bool,
}

/// How a record or a variant holds its fields.
#[derive(PartialEq, Eq, Structural, Clone, Copy, Debug)]
pub enum Style {
    Unit,
    Newtype,
    Tuple,
    Struct,
}

/// One arm of a tagged union.
pub struct Variant {
    /// The serialized name.
    pub name: String,
    pub doc: String,
    pub skip: bool,
    pub style: Style,
    /// The fields; a newtype variant holds one.
    pub fields: Vec<Field>,
}

/// The tagging configuration of a union, as written on it.
pub struct TagConfig {
    pub tag: Option<String>,
    pub content: Option<String>,
    pub untagged: bool,
}

/// What a container holds.
pub enum Body {
    Struct { style: Style, fields: Vec<Field>, transparent: bool },
    Enum { variants: Vec<Variant>, tagging: TagConfig },
}

/// One record or tagged union to render.
pub struct Container {
    pub name: String,
    pub doc: String,
    pub body: Body,
}

/// What went wrong.
pub enum DiagnosticKind {
    /// A tag/content combination that names no encoding.
    Configuration,
    /// A flattened field.
    Flatten,
    /// A named type with generic arguments, by the last element of its path.
    GenericInstantiation(String),
    /// A named type with an empty path.
    EmptyPath,
    /// A shape with no rendering, with its reason.
    Unsupported(String),
}

/// A fatal condition, with the container and, where there are ones, the variant and the
/// field it arose in.
pub struct Diagnostic {
    pub container: String,
    pub variant: Option<String>,
    pub field: Option<String>,
    pub kind: DiagnosticKind,
}

/// Where a rendering takes place: a container, and the variant of it where there is one.
pub struct Context {
    pub container: String,
    pub variant: Option<String>,
}

impl Context {
    /// A copy of this context.
    pub fn duplicate(&self) -> (r: Context)
        ensures
            r == *self,
    {
        Context {
            container: self.container.clone(),
            variant: match &self.variant {
                Some(v) => Some(v.clone()),
                None => None,
            },
        }
    }

    /// The diagnostic of kind `kind` in field `field` here.
    pub fn diagnostic(&self, field: &String, kind: DiagnosticKind) -> (r: Diagnostic)
        ensures
            r == (Diagnostic {
                container: self.container,
                variant: self.variant,
                field: Some(*field),
                kind,
            }),
    {
        let here = self.duplicate();
        Diagnostic {
            container: here.container,
            variant: here.variant,
            field: Some(field.clone()),
            kind,
        }
    }
}

} // verus!
