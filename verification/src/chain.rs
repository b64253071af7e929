//! One-line renderings of source-chain elements, and the text of a whole
//! source-chain dump.

use vstd::prelude::*;
use vstd::string::*;
use crate::text::{
    decimal, decimal_string, decode_utf8_lossy, pad_left, pad_right, padded_left, padded_right,
    paint, painted, truncate_chars, truncated, utf8_lossy, coloured, Colouring, Tint,
};

verus! {

/// Whether an app entry is published to the DHT.
#[derive(Clone, Copy, Debug, PartialEq, Eq, Structural)]
pub enum Visibility {
    Public,
    Private,
}

/// The type of the entry that a `Create` or `Update` header writes.
#[derive(Clone, Copy, Debug, PartialEq, Eq, Structural)]
pub enum EntryKind {
    /// An entry defined by a zome: the zome's index in the DNA and the entry
    /// definition's index in that zome.
    App { zome_index: u8, entry_index: u8, visibility: Visibility },
    AgentPubKey,
    CapClaim,
    CapGrant,
}

/// A source-chain header, with what a rendering reads of each kind.
pub enum Header {
    Dna,
    AgentValidationPkg,
    InitZomesComplete,
    /// The link's tag, as raw bytes.
    CreateLink { tag: Vec<u8> },
    /// The address of the `CreateLink` header that is removed, as text.
    DeleteLink { link_add_address: String },
    OpenChain,
    CloseChain,
    Create { entry_type: EntryKind },
    Update { entry_type: EntryKind },
    /// The address of the deleted header, as text.
    Delete { deletes_address: String },
}

/// A source-chain element as a dump reports it.
pub struct ChainElement {
    pub header: Header,
    /// The header's address, as text.
    pub header_address: String,
    /// The debug text of the header's optional entry hash
    /// (`None`, or `Some(..)` around the hash).
    pub entry_hash: String,
    /// The header's author, as text.
    pub author: String,
    /// Whether the header is one of the genesis headers.
    pub is_genesis: bool,
}

/// The name of a header's type.
pub open spec fn header_type_name(h: Header) -> Seq<char> {
    match h {
        Header::Dna => "Dna"@,
        Header::AgentValidationPkg => "AgentValidationPkg"@,
        Header::InitZomesComplete => "InitZomesComplete"@,
        Header::CreateLink { .. } => "CreateLink"@,
        Header::DeleteLink { .. } => "DeleteLink"@,
        Header::OpenChain => "OpenChain"@,
        Header::CloseChain => "CloseChain"@,
        Header::Create { .. } => "Create"@,
        Header::Update { .. } => "Update"@,
        Header::Delete { .. } => "Delete"@,
    }
}

/// The name of an entry type that no zome defines.
pub open spec fn system_entry_type_name(k: EntryKind) -> Seq<char>
    recommends
        !(k is App),
{
    match k {
        EntryKind::AgentPubKey => "AgentPubKey"@,
        EntryKind::CapClaim => "CapClaim"@,
        _ => "CapGrant"@,
    }
}

/// `s` between single quotes.
pub open spec fn quoted(s: Seq<char>) -> Seq<char> {
    "'"@ + s + "'"@
}

/// Whether an app entry type names an entry definition that `names` holds
/// (`names[z][e]` is the name of entry definition `e` of zome `z`).
pub open spec fn names_entry(k: EntryKind, names: Seq<Seq<Seq<char>>>) -> bool {
    match k {
        EntryKind::App { zome_index, entry_index, .. } =>
            zome_index < names.len() && entry_index < names[zome_index as int].len(),
        _ => true,
    }
}

/// Whether every app entry type that `h` mentions is named in `names`.
pub open spec fn header_names_covered(h: Header, names: Seq<Seq<Seq<char>>>) -> bool {
    match h {
        Header::Create { entry_type } => names_entry(entry_type, names),
        Header::Update { entry_type } => names_entry(entry_type, names),
        _ => true,
    }
}

/// `AppEntry '<name>'` for an app entry type.
pub open spec fn app_entry_text(zome_index: u8, entry_index: u8, names: Seq<Seq<Seq<char>>>) -> Seq<char> {
    "AppEntry "@ + quoted(names[zome_index as int][entry_index as int])
}

/// The coloured detail that follows a header's type name: the start of a
/// link's tag, the name of a written entry, or the start of a removed
/// address; nothing for the other headers. `colouring` says how
/// colouring was applied.
pub open spec fn header_detail(h: Header, names: Seq<Seq<Seq<char>>>, colouring: Colouring) -> Seq<char> {
    match h {
        Header::CreateLink { tag } =>
            painted(quoted(truncated(utf8_lossy(tag@), 20)), Tint::Yellow, colouring),
        Header::Create { entry_type } => match entry_type {
            EntryKind::App { zome_index, entry_index, visibility } => painted(
                app_entry_text(zome_index, entry_index, names),
                if visibility == Visibility::Public { Tint::Green } else { Tint::Red },
                colouring,
            ),
            _ => painted(system_entry_type_name(entry_type), Tint::Green, colouring),
        },
        Header::Update { entry_type } => match entry_type {
            EntryKind::App { zome_index, entry_index, .. } =>
                painted(app_entry_text(zome_index, entry_index, names), Tint::Yellow, colouring),
            _ => painted(system_entry_type_name(entry_type), Tint::Yellow, colouring),
        },
        Header::DeleteLink { link_add_address } =>
            painted(quoted(truncated(link_add_address@, 25)), Tint::Yellow, colouring),
        Header::Delete { deletes_address } =>
            painted(quoted(truncated(deletes_address@, 25)), Tint::Green, colouring),
        _ => Seq::empty(),
    }
}

/// The line that renders `e`: the header's type and detail in a field of
/// 40 characters, then the header's address and the entry hash in
/// parentheses; genesis headers are painted blue as a whole.
/// `detail_colouring` and `line_colouring` say how the two colourings came
/// out.
pub open spec fn element_line(
    e: ChainElement,
    names: Seq<Seq<Seq<char>>>,
    detail_colouring: Colouring,
    line_colouring: Colouring,
) -> Seq<char> {
    let head = header_type_name(e.header) + " "@ + header_detail(e.header, names, detail_colouring);
    let line = padded_right(head, 40) + " ("@ + e.header_address@ + ") ("@ + e.entry_hash@ + ")"@;
    if e.is_genesis { painted(line, Tint::Blue, line_colouring) } else { line }
}

fn header_type_str(h: &Header) -> (res: &'static str)
    ensures
        res@ == header_type_name(*h),
{
    match h {
        Header::Dna => "Dna",
        Header::AgentValidationPkg => "AgentValidationPkg",
        Header::InitZomesComplete => "InitZomesComplete",
        Header::CreateLink { .. } => "CreateLink",
        Header::DeleteLink { .. } => "DeleteLink",
        Header::OpenChain => "OpenChain",
        Header::CloseChain => "CloseChain",
        Header::Create { .. } => "Create",
        Header::Update { .. } => "Update",
        Header::Delete { .. } => "Delete",
    }
}

fn system_entry_type_str(k: EntryKind) -> (res: &'static str)
    ensures
        res@ == system_entry_type_name(k),
{
    match k {
        EntryKind::AgentPubKey => "AgentPubKey",
        EntryKind::CapClaim => "CapClaim",
        _ => "CapGrant",
    }
}

fn quote(s: &str) -> (res: String)
    ensures
        res@ == quoted(s@),
{
    let mut res = String::from_str("'");
    res.append(s);
    res.append("'");
    res
}

/// Paints `s` and says, as a ghost value, whether colouring was applied.
fn paint_noting(s: &str, tint: Tint) -> (res: (String, Ghost<Colouring>))
    ensures
        res.0@ == painted(s@, tint, res.1@),
{
    let r = paint(s, tint);
    let ghost colouring = if r@ == s@ {
        Colouring::Off
    } else if r@ == coloured(s@, tint, true, true) {
        Colouring::On { style_first: true, rearmed: true }
    } else if r@ == coloured(s@, tint, true, false) {
        Colouring::On { style_first: true, rearmed: false }
    } else if r@ == coloured(s@, tint, false, true) {
        Colouring::On { style_first: false, rearmed: true }
    } else {
        Colouring::On { style_first: false, rearmed: false }
    };
    (r, Ghost(colouring))
}

fn app_entry_string(zome_index: u8, entry_index: u8, names: &Vec<Vec<String>>) -> (res: String)
    requires
        zome_index < names.deep_view().len(),
        entry_index < names.deep_view()[zome_index as int].len(),
    ensures
        res@ == app_entry_text(zome_index, entry_index, names.deep_view()),
{
    let zome_names = &names[zome_index as usize];
    let name = &zome_names[entry_index as usize];
    assert(name@ == names.deep_view()[zome_index as int][entry_index as int]);
    let mut res = String::from_str("AppEntry ");
    res.append(quote(name.as_str()).as_str());
    res
}

fn detail_string(h: &Header, names: &Vec<Vec<String>>) -> (res: (String, Ghost<Colouring>))
    requires
        header_names_covered(*h, names.deep_view()),
    ensures
        res.0@ == header_detail(*h, names.deep_view(), res.1@),
{
    match h {
        Header::CreateLink { tag } => {
            let text = decode_utf8_lossy(tag.as_slice());
            let start = truncate_chars(text.as_str(), 20);
            paint_noting(quote(start.as_str()).as_str(), Tint::Yellow)
        },
        Header::Create { entry_type } => match *entry_type {
            EntryKind::App { zome_index, entry_index, visibility } => {
                let text = app_entry_string(zome_index, entry_index, names);
                let tint = match visibility {
                    Visibility::Public => Tint::Green,
                    Visibility::Private => Tint::Red,
                };
                paint_noting(text.as_str(), tint)
            },
            _ => paint_noting(system_entry_type_str(*entry_type), Tint::Green),
        },
        Header::Update { entry_type } => match *entry_type {
            EntryKind::App { zome_index, entry_index, .. } => {
                let text = app_entry_string(zome_index, entry_index, names);
                paint_noting(text.as_str(), Tint::Yellow)
            },
            _ => paint_noting(system_entry_type_str(*entry_type), Tint::Yellow),
        },
        Header::DeleteLink { link_add_address } => {
            let start = truncate_chars(link_add_address.as_str(), 25);
            paint_noting(quote(start.as_str()).as_str(), Tint::Yellow)
        },
        Header::Delete { deletes_address } => {
            let start = truncate_chars(deletes_address.as_str(), 25);
            paint_noting(quote(start.as_str()).as_str(), Tint::Green)
        },
        _ => (String::new(), Ghost(Colouring::Off)),
    }
}

fn element_string(element: &ChainElement, entry_names: &Vec<Vec<String>>) -> (res: (String, Ghost<(Colouring, Colouring)>))
    requires
        header_names_covered(element.header, entry_names.deep_view()),
    ensures
        res.0@ == element_line(*element, entry_names.deep_view(), res.1@.0, res.1@.1),
{
    let (detail, Ghost(detail_on)) = detail_string(&element.header, entry_names);
    let mut head = String::from_str(header_type_str(&element.header));
    head.append(" ");
    head.append(detail.as_str());
    let mut line = pad_right(head.as_str(), 40);
    line.append(" (");
    line.append(element.header_address.as_str());
    line.append(") (");
    line.append(element.entry_hash.as_str());
    line.append(")");
    if element.is_genesis {
        let (painted_line, Ghost(line_on)) = paint_noting(line.as_str(), Tint::Blue);
        (painted_line, Ghost((detail_on, line_on)))
    } else {
        (line, Ghost((detail_on, Colouring::Off)))
    }
}

/// Renders one source-chain element on one line. `entry_names[z][e]` is the
/// name of entry definition `e` of zome `z`; every app entry that the
/// element writes must be named there.
pub fn print_element(element: &ChainElement, entry_names: &Vec<Vec<String>>) -> (res: String)
    requires
        header_names_covered(element.header, entry_names.deep_view()),
    ensures
        exists|detail_colouring: Colouring, line_colouring: Colouring|
            res@ == element_line(*element, entry_names.deep_view(), detail_colouring, line_colouring),
{
    let (line, Ghost(colours)) = element_string(element, entry_names);
    assert(line@ == element_line(*element, entry_names.deep_view(), colours.0, colours.1));
    line
}

/// Line `i` of a dump: the number right-aligned in two characters, a dot,
/// and the element's line.
pub open spec fn numbered_line(i: nat, line: Seq<char>) -> Seq<char> {
    " "@ + padded_left(decimal(i), 2) + ". "@ + line + "\n"@
}

/// The numbered lines of the first `n` elements; `colours[i]` says how the
/// colourings of element `i` came out.
pub open spec fn element_lines(
    elements: Seq<ChainElement>,
    names: Seq<Seq<Seq<char>>>,
    colours: Seq<(Colouring, Colouring)>,
    n: nat,
) -> Seq<char>
    decreases n,
{
    if n == 0 {
        Seq::empty()
    } else {
        let i = (n - 1) as nat;
        element_lines(elements, names, colours, i) + numbered_line(
            i,
            element_line(elements[i as int], names, colours[i as int].0, colours[i as int].1),
        )
    }
}

/// What a dump of an empty source chain says.
pub open spec fn empty_chain_banner() -> Seq<char> {
    "\n\n>>>>>> SOURCE-CHAIN EMPTY <<<<<<\n\n\n"@
}

/// The first line of a dump, naming the chain's author.
pub open spec fn dump_start(author: Seq<char>) -> Seq<char> {
    "\n====== SOURCE-CHAIN STATE DUMP START ===== "@ + author + "\n"@
}

/// The last line of a dump: the number of elements and of published ops.
pub open spec fn dump_end(element_count: nat, published_ops_count: nat) -> Seq<char> {
    "====== SOURCE-CHAIN STATE DUMP END  ===== "@ + decimal(element_count) + " / "@
        + decimal(published_ops_count) + "\n\n"@
}

/// The whole text of a source-chain dump.
pub open spec fn chain_dump(
    elements: Seq<ChainElement>,
    names: Seq<Seq<Seq<char>>>,
    published_ops_count: nat,
    colours: Seq<(Colouring, Colouring)>,
) -> Seq<char> {
    if elements.len() == 0 {
        empty_chain_banner()
    } else {
        dump_start(elements[0].author@) + element_lines(elements, names, colours, elements.len())
            + dump_end(elements.len(), published_ops_count)
    }
}

/// Whether `names` names every app entry that `elements` write.
pub open spec fn chain_names_covered(elements: Seq<ChainElement>, names: Seq<Seq<Seq<char>>>) -> bool {
    forall|i: int| 0 <= i < elements.len() ==> header_names_covered(#[trigger] elements[i].header, names)
}

/// The text that a dump of a source chain prints: a banner for an empty
/// chain; otherwise a first line with the author of the first element, one
/// numbered line per element, and a last line with the number of elements
/// and of published ops.
pub fn source_chain_dump(
    elements: &Vec<ChainElement>,
    published_ops_count: usize,
    entry_names: &Vec<Vec<String>>,
) -> (res: String)
    requires
        chain_names_covered(elements@, entry_names.deep_view()),
    ensures
        exists|colours: Seq<(Colouring, Colouring)>|
            colours.len() == elements.len()
            && res@ == chain_dump(elements@, entry_names.deep_view(), published_ops_count as nat, colours),
{
    let ghost names = entry_names.deep_view();
    let count = elements.len();
    if count == 0 {
        let res = String::from_str("\n\n>>>>>> SOURCE-CHAIN EMPTY <<<<<<\n\n\n");
        let ghost none: Seq<(Colouring, Colouring)> = Seq::empty();
        assert(none.len() == elements.len()
            && res@ == chain_dump(elements@, entry_names.deep_view(), published_ops_count as nat, none));
        return res;
    }
    let mut res = String::from_str("\n====== SOURCE-CHAIN STATE DUMP START ===== ");
    res.append(elements[0].author.as_str());
    res.append("\n");
    let ghost start = res@;
    let ghost mut colours: Seq<(Colouring, Colouring)> = Seq::empty();
    let mut i: usize = 0;
    while i < count
        invariant
            count == elements.len(),
            i <= count,
            names == entry_names.deep_view(),
            chain_names_covered(elements@, names),
            colours.len() == i,
            res@ == start + element_lines(elements@, names, colours, i as nat),
        decreases count - i,
    {
        let element = &elements[i];
        assert(header_names_covered(elements@[i as int].header, names));
        let (line, Ghost(on)) = element_string(element, entry_names);
        let ghost old_colours = colours;
        proof {
            colours = colours.push(on);
            assert(element_lines(elements@, names, colours, i as nat)
                == element_lines(elements@, names, old_colours, i as nat)) by {
                lemma_element_lines_prefix(elements@, names, old_colours, colours, i as nat);
            }
        }
        res.append(" ");
        res.append(pad_left(decimal_string(i).as_str(), 2).as_str());
        res.append(". ");
        res.append(line.as_str());
        res.append("\n");
        i = i + 1;
    }
    res.append("====== SOURCE-CHAIN STATE DUMP END  ===== ");
    res.append(decimal_string(count).as_str());
    res.append(" / ");
    res.append(decimal_string(published_ops_count).as_str());
    res.append("\n\n");
    assert(res@ == chain_dump(elements@, names, published_ops_count as nat, colours));
    res
}

/// The lines of the first `n` elements only read the first `n` colourings.
proof fn lemma_element_lines_prefix(
    elements: Seq<ChainElement>,
    names: Seq<Seq<Seq<char>>>,
    a: Seq<(Colouring, Colouring)>,
    b: Seq<(Colouring, Colouring)>,
    n: nat,
)
    requires
        n <= a.len(),
        n <= b.len(),
        forall|j: int| 0 <= j < n ==> a[j] == b[j],
    ensures
        element_lines(elements, names, a, n) == element_lines(elements, names, b, n),
    decreases n,
{
    if n > 0 {
        lemma_element_lines_prefix(elements, names, a, b, (n - 1) as nat);
    }
}

/// The rendering of a `Create` or `Update` of an app entry names the entry
/// that the header's entry type points at: `AppEntry '` followed by entry
/// `e` of zome `z` in `names`, for the header's own `z` and `e`; green for a
/// public and red for a private `Create`, yellow for an `Update`.
pub proof fn law_app_entry_detail_names_the_entry(
    zome_index: u8,
    entry_index: u8,
    visibility: Visibility,
    names: Seq<Seq<Seq<char>>>,
    colouring: Colouring,
)
    requires
        zome_index < names.len(),
        entry_index < names[zome_index as int].len(),
    ensures
        header_detail(
            Header::Create { entry_type: EntryKind::App { zome_index, entry_index, visibility } },
            names,
            colouring,
        ) == painted(
            "AppEntry "@ + "'"@ + names[zome_index as int][entry_index as int] + "'"@,
            if visibility == Visibility::Public { Tint::Green } else { Tint::Red },
            colouring,
        ),
        header_detail(
            Header::Update { entry_type: EntryKind::App { zome_index, entry_index, visibility } },
            names,
            colouring,
        ) == painted(
            "AppEntry "@ + "'"@ + names[zome_index as int][entry_index as int] + "'"@,
            Tint::Yellow,
            colouring,
        ),
{
    let name = names[zome_index as int][entry_index as int];
    assert("AppEntry "@ + quoted(name) =~= "AppEntry "@ + "'"@ + name + "'"@);
}

/// The line of an element renders that element: its header's type name, a
/// blank and the detail of its own header, in a field of 40 characters,
/// then its own address and entry hash in parentheses; painted blue as a
/// whole when it is a genesis element.
pub proof fn law_element_line_renders_its_element(
    e: ChainElement,
    names: Seq<Seq<Seq<char>>>,
    detail_colouring: Colouring,
    line_colouring: Colouring,
)
    ensures
        ({
            let line = padded_right(
                header_type_name(e.header) + " "@ + header_detail(e.header, names, detail_colouring),
                40,
            ) + " ("@ + e.header_address@ + ") ("@ + e.entry_hash@ + ")"@;
            &&& !e.is_genesis ==> element_line(e, names, detail_colouring, line_colouring) == line
            &&& e.is_genesis ==> element_line(e, names, detail_colouring, line_colouring) == painted(
                line,
                Tint::Blue,
                line_colouring,
            )
        }),
{
}

/// The lines of the first `m` elements begin the lines of the first `n`.
proof fn lemma_element_lines_extend(
    elements: Seq<ChainElement>,
    names: Seq<Seq<Seq<char>>>,
    colours: Seq<(Colouring, Colouring)>,
    m: nat,
    n: nat,
) -> (rest: Seq<char>)
    requires
        m <= n,
    ensures
        element_lines(elements, names, colours, n) == element_lines(elements, names, colours, m) + rest,
    decreases n,
{
    if n == m {
        assert(element_lines(elements, names, colours, m) + Seq::<char>::empty()
            =~= element_lines(elements, names, colours, m));
        Seq::empty()
    } else {
        let before = lemma_element_lines_extend(elements, names, colours, m, (n - 1) as nat);
        let i = (n - 1) as nat;
        let last = numbered_line(
            i,
            element_line(elements[i as int], names, colours[i as int].0, colours[i as int].1),
        );
        assert(element_lines(elements, names, colours, m) + before + last
            =~= element_lines(elements, names, colours, m) + (before + last));
        before + last
    }
}

/// The layout of a dump: an empty chain gives the banner; otherwise the
/// start line with the author of the first element, the element lines and
/// the end line with the number of elements and of published ops; and line
/// `i` of the element lines comes right after lines `0 .. i`, and is ` `,
/// `i` right-aligned in two characters, `. `, the line of element `i`
/// itself, and a line break.
pub proof fn law_dump_layout(
    elements: Seq<ChainElement>,
    names: Seq<Seq<Seq<char>>>,
    published_ops_count: nat,
    colours: Seq<(Colouring, Colouring)>,
)
    ensures
        elements.len() == 0 ==> chain_dump(elements, names, published_ops_count, colours)
            == "\n\n>>>>>> SOURCE-CHAIN EMPTY <<<<<<\n\n\n"@,
        elements.len() > 0 ==> chain_dump(elements, names, published_ops_count, colours)
            == "\n====== SOURCE-CHAIN STATE DUMP START ===== "@ + elements[0].author@ + "\n"@
            + element_lines(elements, names, colours, elements.len())
            + "====== SOURCE-CHAIN STATE DUMP END  ===== "@ + decimal(elements.len()) + " / "@
            + decimal(published_ops_count) + "\n\n"@,
        element_lines(elements, names, colours, 0) == Seq::<char>::empty(),
        forall|i: int|
            0 <= i < elements.len() ==> #[trigger] element_lines(elements, names, colours, (i + 1) as nat)
                == element_lines(elements, names, colours, i as nat) + (" "@ + padded_left(
                decimal(i as nat),
                2,
            ) + ". "@ + element_line(elements[i], names, colours[i].0, colours[i].1) + "\n"@),
{
    if elements.len() > 0 {
        let lines = element_lines(elements, names, colours, elements.len());
        assert(dump_start(elements[0].author@) + lines + dump_end(elements.len(), published_ops_count)
            =~= "\n====== SOURCE-CHAIN STATE DUMP START ===== "@ + elements[0].author@ + "\n"@ + lines
            + "====== SOURCE-CHAIN STATE DUMP END  ===== "@ + decimal(elements.len()) + " / "@
            + decimal(published_ops_count) + "\n\n"@);
    }
}

/// Line `i` of a dump renders element `i`, the `i`-th element of the input:
/// after the start line and the lines of elements `0 .. i`, the dump goes on
/// with ` `, `i` right-aligned in two characters, `. `, the line of
/// `elements[i]` and a line break.
pub proof fn law_dump_line_i_renders_element_i(
    elements: Seq<ChainElement>,
    names: Seq<Seq<Seq<char>>>,
    published_ops_count: nat,
    colours: Seq<(Colouring, Colouring)>,
    i: int,
)
    requires
        0 <= i < elements.len(),
    ensures
        ({
            let line = " "@ + padded_left(decimal(i as nat), 2) + ". "@
                + element_line(elements[i], names, colours[i].0, colours[i].1) + "\n"@;
            let before = "\n====== SOURCE-CHAIN STATE DUMP START ===== "@ + elements[0].author@ + "\n"@
                + element_lines(elements, names, colours, i as nat);
            chain_dump(elements, names, published_ops_count, colours).subrange(
                before.len() as int,
                (before.len() + line.len()) as int,
            ) == line
        }),
{
    let line = " "@ + padded_left(decimal(i as nat), 2) + ". "@
        + element_line(elements[i], names, colours[i].0, colours[i].1) + "\n"@;
    let start = dump_start(elements[0].author@);
    let upto = element_lines(elements, names, colours, i as nat);
    let before = "\n====== SOURCE-CHAIN STATE DUMP START ===== "@ + elements[0].author@ + "\n"@ + upto;
    assert(before =~= start + upto);
    let rest = lemma_element_lines_extend(elements, names, colours, (i + 1) as nat, elements.len());
    assert(element_lines(elements, names, colours, (i + 1) as nat) == upto + line);
    let end = dump_end(elements.len(), published_ops_count);
    let whole = chain_dump(elements, names, published_ops_count, colours);
    assert(whole == start + (upto + line + rest) + end);
    assert(whole =~= before + line + (rest + end));
    assert(whole.subrange(before.len() as int, (before.len() + line.len()) as int) =~= line);
}

/// The names of the header types, as the rendering shows them.
pub proof fn law_header_type_names(tag: Vec<u8>, address: String, k: EntryKind)
    ensures
        header_type_name(Header::Dna) == "Dna"@,
        header_type_name(Header::AgentValidationPkg) == "AgentValidationPkg"@,
        header_type_name(Header::InitZomesComplete) == "InitZomesComplete"@,
        header_type_name(Header::CreateLink { tag }) == "CreateLink"@,
        header_type_name(Header::DeleteLink { link_add_address: address }) == "DeleteLink"@,
        header_type_name(Header::OpenChain) == "OpenChain"@,
        header_type_name(Header::CloseChain) == "CloseChain"@,
        header_type_name(Header::Create { entry_type: k }) == "Create"@,
        header_type_name(Header::Update { entry_type: k }) == "Update"@,
        header_type_name(Header::Delete { deletes_address: address }) == "Delete"@,
{
}

/// The details of the other headers: a link's tag decoded and cut to its
/// first 20 characters, quoted, in yellow; a removed link's or header's
/// address cut to its first 25 characters, quoted, in yellow for a link and
/// green for a header; the name of a system entry type, in green for a
/// `Create` and yellow for an `Update`; nothing for the headers that write
/// nothing.
pub proof fn law_other_header_details(
    tag: Vec<u8>,
    address: String,
    k: EntryKind,
    names: Seq<Seq<Seq<char>>>,
    colouring: Colouring,
)
    ensures
        header_detail(Header::CreateLink { tag }, names, colouring)
            == painted("'"@ + truncated(utf8_lossy(tag@), 20) + "'"@, Tint::Yellow, colouring),
        header_detail(Header::DeleteLink { link_add_address: address }, names, colouring)
            == painted("'"@ + truncated(address@, 25) + "'"@, Tint::Yellow, colouring),
        header_detail(Header::Delete { deletes_address: address }, names, colouring)
            == painted("'"@ + truncated(address@, 25) + "'"@, Tint::Green, colouring),
        k == EntryKind::AgentPubKey ==> header_detail(Header::Create { entry_type: k }, names, colouring)
            == painted("AgentPubKey"@, Tint::Green, colouring),
        k == EntryKind::CapClaim ==> header_detail(Header::Create { entry_type: k }, names, colouring)
            == painted("CapClaim"@, Tint::Green, colouring),
        k == EntryKind::CapGrant ==> header_detail(Header::Create { entry_type: k }, names, colouring)
            == painted("CapGrant"@, Tint::Green, colouring),
        k == EntryKind::AgentPubKey ==> header_detail(Header::Update { entry_type: k }, names, colouring)
            == painted("AgentPubKey"@, Tint::Yellow, colouring),
        k == EntryKind::CapClaim ==> header_detail(Header::Update { entry_type: k }, names, colouring)
            == painted("CapClaim"@, Tint::Yellow, colouring),
        k == EntryKind::CapGrant ==> header_detail(Header::Update { entry_type: k }, names, colouring)
            == painted("CapGrant"@, Tint::Yellow, colouring),
        header_detail(Header::Dna, names, colouring) == Seq::<char>::empty(),
        header_detail(Header::AgentValidationPkg, names, colouring) == Seq::<char>::empty(),
        header_detail(Header::InitZomesComplete, names, colouring) == Seq::<char>::empty(),
        header_detail(Header::OpenChain, names, colouring) == Seq::<char>::empty(),
        header_detail(Header::CloseChain, names, colouring) == Seq::<char>::empty(),
{
    assert(quoted(truncated(utf8_lossy(tag@), 20)) =~= "'"@ + truncated(utf8_lossy(tag@), 20) + "'"@);
    assert(quoted(truncated(address@, 25)) =~= "'"@ + truncated(address@, 25) + "'"@);
}

} // verus!
