//! The pieces of the document: the markup of one element, as `quick_xml`
//! writes it, and the envelope round the content.

use crate::config::Config;
use crate::data_traits::{cell_view, CellView, Element};
use crate::decimal::decimal_digits;
use quick_xml::events::{BytesDecl, BytesEnd, BytesStart, BytesText, Event};
use quick_xml::Writer;
use vstd::prelude::*;
use vstd::string::*;
use vstd::utf8::encode_utf8;

verus! {

/// What one event of the writer holds: a piece of a document that is
/// neither an element without content nor an element of text.
pub enum Piece<'a> {
    /// The XML declaration with the given version, encoding and standalone
    /// flag.
    Declaration { version: &'a str, encoding: &'a str, standalone: &'a str },
    /// The document type declaration with the given content.
    DocType { content: &'a str },
    /// The start tag of the element `name` with the given attributes.
    Start { name: &'a str, attributes: &'a Vec<(&'a str, &'a str)> },
    /// The end tag of the element `name`.
    End { name: &'a str },
}

/// A piece, its texts as sequences of characters.
pub enum PieceView {
    Declaration { version: Seq<char>, encoding: Seq<char>, standalone: Seq<char> },
    DocType { content: Seq<char> },
    Start { name: Seq<char>, attributes: Seq<(Seq<char>, Seq<char>)> },
    End { name: Seq<char> },
}

impl<'a> View for Piece<'a> {
    type V = PieceView;

    open spec fn view(&self) -> PieceView {
        match *self {
            Piece::Declaration { version, encoding, standalone } => PieceView::Declaration {
                version: version@,
                encoding: encoding@,
                standalone: standalone@,
            },
            Piece::DocType { content } => PieceView::DocType { content: content@ },
            Piece::Start { name, attributes } => PieceView::Start {
                name: name@,
                attributes: attribute_views(attributes@),
            },
            Piece::End { name } => PieceView::End { name: name@ },
        }
    }
}

/// The bytes of the start tag of the element `name` with the given
/// attributes, each a name and a value that is yet to be escaped.
pub uninterp spec fn start_tag_markup(
    name: Seq<char>,
    attributes: Seq<(Seq<char>, Seq<char>)>,
) -> Seq<u8>;

/// The bytes of an XML declaration with the given version, encoding and
/// standalone flag, each taken as it is.
pub open spec fn declaration_markup(
    version: Seq<char>,
    encoding: Seq<char>,
    standalone: Seq<char>,
) -> Seq<u8> {
    encode_utf8(
        "<?xml version=\""@ + version + "\" encoding=\""@ + encoding + "\" standalone=\""@
            + standalone + "\"?>"@,
    )
}

/// The bytes of a document type declaration with the given content, taken
/// as it is.
pub open spec fn doctype_markup(content: Seq<char>) -> Seq<u8> {
    encode_utf8("<!DOCTYPE "@ + content + ">"@)
}

/// The bytes of the end tag of the element `name`.
pub open spec fn end_tag_markup(name: Seq<char>) -> Seq<u8> {
    encode_utf8("</"@ + name + ">"@)
}

/// The bytes of the element `name` with the given attributes and no
/// content.
pub uninterp spec fn empty_element_markup(
    name: Seq<char>,
    attributes: Seq<(Seq<char>, Seq<char>)>,
) -> Seq<u8>;

/// The bytes of the element `name` with the given attributes and the
/// given text, yet to be escaped, as its content.
pub uninterp spec fn text_element_markup(
    name: Seq<char>,
    attributes: Seq<(Seq<char>, Seq<char>)>,
    text: Seq<char>,
) -> Seq<u8>;

/// The attributes as sequences of characters.
pub open spec fn attribute_views(attributes: Seq<(&str, &str)>) -> Seq<(Seq<char>, Seq<char>)> {
    Seq::new(attributes.len(), |i: int| (attributes[i].0@, attributes[i].1@))
}

/// `quick_xml::Writer::write_event`, on a writer without indentation over
/// an empty buffer. What it has written depends on the event alone, and an
/// event on what it was made of. A declaration is written as `<?xml`, the
/// version, the encoding and the standalone flag, each after its name and
/// in double quotes, and `?>`; a document type as its content between
/// `<!DOCTYPE ` and `>`; an end tag as the name between `</` and `>`; each
/// text as it is. The bytes of a start tag are named.
#[verifier::external_body]
pub(crate) fn write_event(piece: Piece) -> (markup: Vec<u8>)
    ensures
        markup@ == (match piece@ {
            PieceView::Declaration { version, encoding, standalone } => declaration_markup(
                version,
                encoding,
                standalone,
            ),
            PieceView::DocType { content } => doctype_markup(content),
            PieceView::Start { name, attributes } => start_tag_markup(name, attributes),
            PieceView::End { name } => end_tag_markup(name),
        }),
{
    let event = match piece {
        Piece::Declaration { version, encoding, standalone } => {
            Event::Decl(BytesDecl::new(version, Some(encoding), Some(standalone)))
        },
        Piece::DocType { content } => Event::DocType(BytesText::from_escaped(content)),
        Piece::Start { name, attributes } => {
            Event::Start(BytesStart::new(name).with_attributes(attributes.iter().copied()))
        },
        Piece::End { name } => Event::End(BytesEnd::new(name)),
    };
    let mut writer = Writer::new(Vec::new());
    writer.write_event(event).unwrap();
    writer.into_inner()
}

/// `quick_xml::writer::ElementWriter::write_empty`, on a writer without
/// indentation over an empty buffer: what it has written depends on the
/// element's name and its attributes in their order alone.
#[verifier::external_body]
fn empty_element(name: &str, attributes: &Vec<(&str, &str)>) -> (markup: Vec<u8>)
    ensures
        markup@ == empty_element_markup(name@, attribute_views(attributes@)),
{
    let mut writer = Writer::new(Vec::new());
    writer.create_element(name).with_attributes(attributes.iter().copied()).write_empty().unwrap();
    writer.into_inner()
}

/// `quick_xml::writer::ElementWriter::write_text_content`, on a writer
/// without indentation over an empty buffer: what it has written depends
/// on the element's name, its attributes in their order and the text alone.
#[verifier::external_body]
fn text_element(name: &str, attributes: &Vec<(&str, &str)>, text: &str) -> (markup: Vec<u8>)
    ensures
        markup@ == text_element_markup(name@, attribute_views(attributes@), text@),
{
    let mut writer = Writer::new(Vec::new());
    let element = writer.create_element(name).with_attributes(attributes.iter().copied());
    element.write_text_content(BytesText::new(text)).unwrap();
    writer.into_inner()
}

/// The style of the rectangle of a cell.
pub open spec fn style_text(config: Config, cell: CellView) -> Seq<char> {
    "fill:"@ + cell.color.hex() + ";stroke-width:"@ + decimal_digits(config.border as nat)
        + ";stroke:"@ + cell.border_color.hex()
}

/// The attributes of the rectangle of the cell at `(first, second)`.
pub open spec fn rect_attributes(
    config: Config,
    first: int,
    second: int,
    cell: CellView,
) -> Seq<(Seq<char>, Seq<char>)> {
    seq![
        ("x"@, decimal_digits(config.position(first, second).0 as nat)),
        ("y"@, decimal_digits(config.position(first, second).1 as nat)),
        ("rx"@, decimal_digits(config.rounding as nat)),
        ("ry"@, decimal_digits(config.rounding as nat)),
        ("width"@, decimal_digits(config.size_x as nat)),
        ("height"@, decimal_digits(config.size_y as nat)),
        ("style"@, style_text(config, cell)),
    ]
}

/// The rectangle of the cell at `(first, second)`.
pub open spec fn rect_markup(config: Config, first: int, second: int, cell: CellView) -> Seq<u8> {
    empty_element_markup("rect"@, rect_attributes(config, first, second, cell))
}

/// The attributes of a label at `x` along the second axis and `y` along
/// the first.
pub open spec fn text_attributes(config: Config, x: int, y: int) -> Seq<(Seq<char>, Seq<char>)> {
    seq![
        ("x"@, decimal_digits(config.position(y, x).0 as nat)),
        ("y"@, decimal_digits(config.position(y, x).1 as nat)),
        ("dominant-baseline"@, "hanging"@),
    ]
}

/// The label `val` at `x` along the second axis and `y` along the first.
pub open spec fn text_markup(config: Config, x: int, y: int, val: Seq<char>) -> Seq<u8> {
    text_element_markup("text"@, text_attributes(config, x, y), val)
}

/// The document type of an SVG 1.1 document.
pub const DOCTYPE: &'static str =
    "svg PUBLIC \"-//W3C//DTD SVG 1.1//EN\" \"http://www.w3.org/Graphics/SVG/1.1/DTD/svg11.dtd\"";

/// The attributes of the root element.
pub open spec fn root_attributes() -> Seq<(Seq<char>, Seq<char>)> {
    seq![
        ("version"@, "1.1"@),
        ("xmlns"@, "http://www.w3.org/2000/svg"@),
        ("xmlns:xlink"@, "http://www.w3.org/1999/xlink"@),
    ]
}

/// What comes before the content of a document: the declaration, the
/// document type and the start tag of the root element.
pub open spec fn document_head() -> Seq<u8> {
    declaration_markup("1.0"@, "UTF-8"@, "no"@) + doctype_markup(DOCTYPE@) + start_tag_markup(
        "svg"@,
        root_attributes(),
    )
}

/// The document with the given content.
pub open spec fn document_markup(content: Seq<u8>) -> Seq<u8> {
    document_head() + content + end_tag_markup("svg"@)
}

/// Wraps `content` in the envelope of a document: the declaration and the
/// document type, then the root element round the content.
pub fn base_doc(content: Vec<u8>) -> (document: Vec<u8>)
    ensures
        document@ == document_markup(content@),
{
    let mut content = content;
    let mut svg = write_event(
        Piece::Declaration { version: "1.0", encoding: "UTF-8", standalone: "no" },
    );
    let mut kind = write_event(Piece::DocType { content: DOCTYPE });
    svg.append(&mut kind);
    let attributes = vec![
        ("version", "1.1"),
        ("xmlns", "http://www.w3.org/2000/svg"),
        ("xmlns:xlink", "http://www.w3.org/1999/xlink"),
    ];
    assert(attribute_views(attributes@) =~= root_attributes());
    let mut open = write_event(Piece::Start { name: "svg", attributes: &attributes });
    svg.append(&mut open);
    svg.append(&mut content);
    let mut close = write_event(Piece::End { name: "svg" });
    svg.append(&mut close);
    svg
}

/// Writes the rectangle of the cell `ele` at `(first, second)`.
pub fn write_rect<E: Element>(svg: &mut Vec<u8>, config: &Config, first: u32, second: u32, ele: &E)
    requires
        config.fits(first as int, second as int),
    ensures
        final(svg)@ == old(svg)@ + rect_markup(
            *config,
            first as int,
            second as int,
            cell_view(*ele),
        ),
{
    let mut style = String::from_str("fill:");
    style.append(ele.get_color().to_hex_string().as_str());
    style.append(";stroke-width:");
    style.append(config.border().as_str());
    style.append(";stroke:");
    style.append(ele.get_border_color().to_hex_string().as_str());
    let (x, y) = config.positions(first, second);
    let rounding = config.rounding();
    let width = config.size_x();
    let height = config.size_y();
    let attributes = vec![
        ("x", x.as_str()),
        ("y", y.as_str()),
        ("rx", rounding.as_str()),
        ("ry", rounding.as_str()),
        ("width", width.as_str()),
        ("height", height.as_str()),
        ("style", style.as_str()),
    ];
    assert(attribute_views(attributes@) =~= rect_attributes(
        *config,
        first as int,
        second as int,
        cell_view(*ele),
    ));
    let mut markup = empty_element("rect", &attributes);
    svg.append(&mut markup);
}

/// Writes the label `val` at `x` along the second axis and `y` along the
/// first.
pub fn write_text(svg: &mut Vec<u8>, config: &Config, x: u32, y: u32, val: &str)
    requires
        config.fits(y as int, x as int),
    ensures
        final(svg)@ == old(svg)@ + text_markup(*config, x as int, y as int, val@),
{
    let (xs, ys) = config.positions(y, x);
    let attributes = vec![("x", xs.as_str()), ("y", ys.as_str()), ("dominant-baseline", "hanging")];
    assert(attribute_views(attributes@) =~= text_attributes(*config, x as int, y as int));
    let mut markup = text_element("text", &attributes, val);
    svg.append(&mut markup);
}

} // verus!
