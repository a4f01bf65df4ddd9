use vstd::prelude::*;

use crate::error::FdwError;
use crate::json::{same_text, Json};

verus! {

/// One typed value of a row.
#[derive(Debug)]
pub enum Cell {
    Null,
    Text(String),
    Bool(bool),
    I64(i64),
}

/// What a [`Cell`] holds, with its text as characters.
pub enum CellView {
    Null,
    Text(Seq<char>),
    Bool(bool),
    I64(i64),
}

impl View for Cell {
    type V = CellView;

    open spec fn view(&self) -> CellView {
        match self {
            Cell::Null => CellView::Null,
            Cell::Text(s) => CellView::Text(s@),
            Cell::Bool(b) => CellView::Bool(*b),
            Cell::I64(n) => CellView::I64(*n),
        }
    }
}

/// The columns that the adapter can produce. Each is read from the product's
/// member of the same name.
#[derive(Debug, Clone, Copy, PartialEq, Eq, Structural)]
pub enum Column {
    Id,
    RetailerId,
    Name,
    Description,
    Url,
    Currency,
    Price,
    IsHidden,
    MaxAvailable,
    Availability,
    Checkmark,
    WhatsappProductCanAppeal,
    IsApproved,
    ApprovalStatus,
    SignedShimmedUrl,
    Images,
}

impl Column {
    /// The column's name, which is also the name of the product member it reads.
    pub open spec fn name(self) -> Seq<char> {
        match self {
            Column::Id => "id"@,
            Column::RetailerId => "retailer_id"@,
            Column::Name => "name"@,
            Column::Description => "description"@,
            Column::Url => "url"@,
            Column::Currency => "currency"@,
            Column::Price => "price"@,
            Column::IsHidden => "is_hidden"@,
            Column::MaxAvailable => "max_available"@,
            Column::Availability => "availability"@,
            Column::Checkmark => "checkmark"@,
            Column::WhatsappProductCanAppeal => "whatsapp_product_can_appeal"@,
            Column::IsApproved => "is_approved"@,
            Column::ApprovalStatus => "approval_status"@,
            Column::SignedShimmedUrl => "signedShimmedUrl"@,
            Column::Images => "images"@,
        }
    }

    /// Whether the column holds a boolean.
    pub open spec fn is_flag(self) -> bool {
        self is IsHidden || self is Checkmark || self is WhatsappProductCanAppeal
            || self is IsApproved
    }

    /// The column's name.
    pub fn key(&self) -> (r: &'static str)
        ensures
            r@ == self.name(),
    {
        match self {
            Column::Id => "id",
            Column::RetailerId => "retailer_id",
            Column::Name => "name",
            Column::Description => "description",
            Column::Url => "url",
            Column::Currency => "currency",
            Column::Price => "price",
            Column::IsHidden => "is_hidden",
            Column::MaxAvailable => "max_available",
            Column::Availability => "availability",
            Column::Checkmark => "checkmark",
            Column::WhatsappProductCanAppeal => "whatsapp_product_can_appeal",
            Column::IsApproved => "is_approved",
            Column::ApprovalStatus => "approval_status",
            Column::SignedShimmedUrl => "signedShimmedUrl",
            Column::Images => "images",
        }
    }

    /// The column named `name`, if the adapter knows one.
    pub fn from_name(name: &str) -> (r: Option<Column>)
        ensures
            r == column_named(name@),
    {
        if same_text(name, "id") {
            Some(Column::Id)
        } else if same_text(name, "retailer_id") {
            Some(Column::RetailerId)
        } else if same_text(name, "name") {
            Some(Column::Name)
        } else if same_text(name, "description") {
            Some(Column::Description)
        } else if same_text(name, "url") {
            Some(Column::Url)
        } else if same_text(name, "currency") {
            Some(Column::Currency)
        } else if same_text(name, "price") {
            Some(Column::Price)
        } else if same_text(name, "is_hidden") {
            Some(Column::IsHidden)
        } else if same_text(name, "max_available") {
            Some(Column::MaxAvailable)
        } else if same_text(name, "availability") {
            Some(Column::Availability)
        } else if same_text(name, "checkmark") {
            Some(Column::Checkmark)
        } else if same_text(name, "whatsapp_product_can_appeal") {
            Some(Column::WhatsappProductCanAppeal)
        } else if same_text(name, "is_approved") {
            Some(Column::IsApproved)
        } else if same_text(name, "approval_status") {
            Some(Column::ApprovalStatus)
        } else if same_text(name, "signedShimmedUrl") {
            Some(Column::SignedShimmedUrl)
        } else if same_text(name, "images") {
            Some(Column::Images)
        } else {
            None
        }
    }
}

/// The column whose name is `name`; `None` for a name the adapter does not know.
pub open spec fn column_named(name: Seq<char>) -> Option<Column> {
    if name == "id"@ {
        Some(Column::Id)
    } else if name == "retailer_id"@ {
        Some(Column::RetailerId)
    } else if name == "name"@ {
        Some(Column::Name)
    } else if name == "description"@ {
        Some(Column::Description)
    } else if name == "url"@ {
        Some(Column::Url)
    } else if name == "currency"@ {
        Some(Column::Currency)
    } else if name == "price"@ {
        Some(Column::Price)
    } else if name == "is_hidden"@ {
        Some(Column::IsHidden)
    } else if name == "max_available"@ {
        Some(Column::MaxAvailable)
    } else if name == "availability"@ {
        Some(Column::Availability)
    } else if name == "checkmark"@ {
        Some(Column::Checkmark)
    } else if name == "whatsapp_product_can_appeal"@ {
        Some(Column::WhatsappProductCanAppeal)
    } else if name == "is_approved"@ {
        Some(Column::IsApproved)
    } else if name == "approval_status"@ {
        Some(Column::ApprovalStatus)
    } else if name == "signedShimmedUrl"@ {
        Some(Column::SignedShimmedUrl)
    } else if name == "images"@ {
        Some(Column::Images)
    } else {
        None
    }
}

/// The URL of each image object, in order; images without a text `url` are skipped.
pub open spec fn image_urls(images: Seq<Json>) -> Seq<Seq<char>>
    decreases images.len(),
{
    if images.len() == 0 {
        Seq::empty()
    } else {
        let before = image_urls(images.drop_last());
        match images.last().member("url"@) {
            Some(Json::Str(u)) => before.push(u@),
            _ => before,
        }
    }
}

/// The parts, with `", "` between each two.
pub open spec fn join(parts: Seq<Seq<char>>) -> Seq<char>
    decreases parts.len(),
{
    if parts.len() == 0 {
        Seq::empty()
    } else if parts.len() == 1 {
        parts[0]
    } else {
        join(parts.drop_last()) + ", "@ + parts.last()
    }
}

/// The text of the derived `images` column: the joined URLs where the member
/// is an array, else the empty text.
pub open spec fn images_text(member: Option<Json>) -> Seq<char> {
    match member {
        Some(Json::Array(items)) => join(image_urls(items@)),
        _ => Seq::empty(),
    }
}

/// The cell that `column` takes from `record`. A member that is missing or
/// holds another type than the column's gives the null cell.
pub open spec fn cell_of(record: Json, column: Column) -> CellView {
    let member = record.member(column.name());
    if column is Images {
        CellView::Text(images_text(member))
    } else if column is MaxAvailable {
        match member {
            Some(Json::Number(Some(n))) => CellView::I64(n),
            _ => CellView::Null,
        }
    } else if column.is_flag() {
        match member {
            Some(Json::Bool(b)) => CellView::Bool(b),
            _ => CellView::Null,
        }
    } else {
        match member {
            Some(Json::Str(s)) => CellView::Text(s@),
            _ => CellView::Null,
        }
    }
}

/// Decoding a column by name: the cell where the name is known, else the name.
pub open spec fn decode_named(record: Json, name: Seq<char>) -> Result<CellView, Seq<char>> {
    match column_named(name) {
        Some(c) => Ok(cell_of(record, c)),
        None => Err(name),
    }
}

proof fn lemma_join_push(parts: Seq<Seq<char>>, x: Seq<char>)
    ensures
        join(parts.push(x)) == if parts.len() == 0 {
            x
        } else {
            join(parts) + ", "@ + x
        },
{
    assert(parts.push(x).drop_last() =~= parts);
}

/// Joins the URLs of `images` with `", "`.
fn join_image_urls(images: &Vec<Json>) -> (r: String)
    ensures
        r@ == join(image_urls(images@)),
{
    let mut out = String::new();
    let mut any = false;
    let mut i: usize = 0;
    while i < images.len()
        invariant
            i <= images@.len(),
            out@ == join(image_urls(images@.take(i as int))),
            any == (image_urls(images@.take(i as int)).len() > 0),
        decreases images.len() - i,
    {
        proof {
            assert(images@.take(i + 1).drop_last() =~= images@.take(i as int));
        }
        match images[i].get("url") {
            Some(Json::Str(u)) => {
                proof {
                    lemma_join_push(image_urls(images@.take(i as int)), u@);
                }
                if any {
                    out.append(", ");
                }
                out.append(u.as_str());
                any = true;
            },
            _ => {},
        }
        i = i + 1;
    }
    proof {
        assert(images@.take(i as int) =~= images@);
    }
    out
}

/// The cell that `column` takes from `record`.
pub fn decode_column(record: &Json, column: Column) -> (r: Cell)
    ensures
        r@ == cell_of(*record, column),
{
    let member = record.get(column.key());
    match column {
        Column::Images => match member {
            Some(Json::Array(items)) => Cell::Text(join_image_urls(items)),
            _ => Cell::Text(String::new()),
        },
        Column::MaxAvailable => match member {
            Some(Json::Number(Some(n))) => Cell::I64(*n),
            _ => Cell::Null,
        },
        Column::IsHidden | Column::Checkmark | Column::WhatsappProductCanAppeal
        | Column::IsApproved => match member {
            Some(Json::Bool(b)) => Cell::Bool(*b),
            _ => Cell::Null,
        },
        _ => match member {
            Some(Json::Str(s)) => Cell::Text(s.clone()),
            _ => Cell::Null,
        },
    }
}

/// Decodes the column named `name` of `record`. A name that the adapter does
/// not know fails with `UnsupportedColumn`, whatever the record holds.
pub fn decode(record: &Json, name: &str) -> (r: Result<Cell, FdwError>)
    ensures
        match decode_named(*record, name@) {
            Ok(cell) => r matches Ok(c) && c@ == cell,
            Err(n) => r matches Err(FdwError::UnsupportedColumn(m)) && m@ == n,
        },
{
    match Column::from_name(name) {
        Some(c) => Ok(decode_column(record, c)),
        None => Err(FdwError::UnsupportedColumn(name.to_owned())),
    }
}


/// The characters of each name.
pub open spec fn names_of(columns: Seq<String>) -> Seq<Seq<char>> {
    columns.map_values(|c: String| c@)
}

/// What each cell of a row holds.
pub open spec fn row_view(row: Seq<Cell>) -> Seq<CellView> {
    row.map_values(|c: Cell| c@)
}

/// Projects `record` onto the columns named `names`, in their order: the row of
/// cells, or the first name that the adapter does not know.
pub open spec fn project(record: Json, names: Seq<Seq<char>>) -> Result<Seq<CellView>, Seq<char>>
    decreases names.len(),
{
    if names.len() == 0 {
        Ok(Seq::empty())
    } else {
        match project(record, names.drop_last()) {
            Err(n) => Err(n),
            Ok(cells) => match decode_named(record, names.last()) {
                Err(n) => Err(n),
                Ok(c) => Ok(cells.push(c)),
            },
        }
    }
}

/// Projects `record` onto the columns named in `columns`, in their order. The
/// first unknown name fails the whole row with `UnsupportedColumn`.
pub fn decode_row(record: &Json, columns: &Vec<String>) -> (r: Result<Vec<Cell>, FdwError>)
    ensures
        match project(*record, names_of(columns@)) {
            Ok(cells) => r matches Ok(row) && row_view(row@) == cells,
            Err(n) => r matches Err(FdwError::UnsupportedColumn(m)) && m@ == n,
        },
{
    let ghost names = names_of(columns@);
    let mut row: Vec<Cell> = Vec::new();
    let mut i: usize = 0;
    proof {
        assert(names.take(0).len() == 0);
        assert(row_view(row@) =~= Seq::<CellView>::empty());
    }
    while i < columns.len()
        invariant
            i <= columns@.len(),
            names == names_of(columns@),
            project(*record, names.take(i as int)) == Ok::<Seq<CellView>, Seq<char>>(
                row_view(row@),
            ),
        decreases columns.len() - i,
    {
        proof {
            assert(names.take(i + 1).drop_last() =~= names.take(i as int));
            assert(names.take(i + 1).last() == columns@[i as int]@);
        }
        match decode(record, columns[i].as_str()) {
            Ok(c) => {
                let ghost before = row@;
                let ghost cv = c@;
                row.push(c);
                proof {
                    assert(row_view(row@) =~= row_view(before).push(cv));
                }
            },
            Err(e) => {
                proof {
                    lemma_project_fails_on(*record, names, i as int);
                }
                return Err(e);
            },
        }
        i = i + 1;
    }
    proof {
        assert(names.take(i as int) =~= names);
    }
    Ok(row)
}

/// Where the prefix of `names` up to `i` projects and the name at `i` is
/// unknown, the projection of all of `names` fails with that name.
proof fn lemma_project_fails_on(record: Json, names: Seq<Seq<char>>, i: int)
    requires
        0 <= i < names.len(),
        project(record, names.take(i)) is Ok,
        column_named(names[i]) is None,
    ensures
        project(record, names) == Err::<Seq<CellView>, Seq<char>>(names[i]),
    decreases names.len(),
{
    if i == names.len() - 1 {
        assert(names.drop_last() =~= names.take(i));
    } else {
        assert(names.drop_last().take(i) =~= names.take(i));
        lemma_project_fails_on(record, names.drop_last(), i);
    }
}


/// Whether `cell` is of the type that `column` holds, or null; the derived
/// `images` column always holds text.
pub open spec fn fits(column: Column, cell: CellView) -> bool {
    if column is Images {
        cell is Text
    } else if column is MaxAvailable {
        cell is I64 || cell is Null
    } else if column.is_flag() {
        cell is Bool || cell is Null
    } else {
        cell is Text || cell is Null
    }
}

/// Decoding a known column never fails, whatever the record holds: it gives a
/// cell of the column's type, or the null cell.
pub proof fn lemma_known_column_decodes(record: Json, name: Seq<char>)
    requires
        column_named(name) is Some,
    ensures
        decode_named(record, name) matches Ok(cell) && cell == cell_of(record, column_named(name)->Some_0)
            && fits(column_named(name)->Some_0, cell),
{
}

/// Decoding an unknown column fails with that name, whatever the record holds.
pub proof fn lemma_unknown_column_fails(record: Json, other: Json, name: Seq<char>)
    requires
        column_named(name) is None,
    ensures
        decode_named(record, name) == Err::<CellView, Seq<char>>(name),
        decode_named(record, name) == decode_named(other, name),
{
}

/// The cells of `record` for the columns named `names`, all of them known.
pub open spec fn cells_of(record: Json, names: Seq<Seq<char>>) -> Seq<CellView> {
    names.map_values(|n: Seq<char>| cell_of(record, column_named(n)->Some_0))
}

/// Whether the adapter knows every name of `names`.
pub open spec fn all_known(names: Seq<Seq<char>>) -> bool {
    forall|i: int| 0 <= i < names.len() ==> column_named(#[trigger] names[i]) is Some
}

/// A record projects onto known columns without failing, one cell per column
/// in their order.
pub proof fn lemma_project_known(record: Json, names: Seq<Seq<char>>)
    requires
        all_known(names),
    ensures
        project(record, names) == Ok::<Seq<CellView>, Seq<char>>(cells_of(record, names)),
    decreases names.len(),
{
    if names.len() > 0 {
        let rest = names.drop_last();
        assert(all_known(rest)) by {
            assert forall|i: int| 0 <= i < rest.len() implies column_named(#[trigger] rest[i]) is Some by {
                assert(rest[i] == names[i]);
            }
        }
        lemma_project_known(record, rest);
        assert(column_named(names[names.len() - 1]) is Some);
        assert(cells_of(record, names) =~= cells_of(record, rest).push(
            cell_of(record, column_named(names.last())->Some_0),
        ));
    } else {
        assert(cells_of(record, names) =~= Seq::<CellView>::empty());
    }
}


/// Each column is found by its own name, and by no other.
pub proof fn lemma_column_named_by_name(column: Column)
    ensures
        column_named(column.name()) == Some(column),
{
    assert("id"@.len() == 2) by {
        reveal_strlit("id");
    }
    assert("retailer_id"@.len() == 11) by {
        reveal_strlit("retailer_id");
    }
    assert("name"@.len() == 4) by {
        reveal_strlit("name");
    }
    assert("description"@.len() == 11) by {
        reveal_strlit("description");
    }
    assert("url"@.len() == 3) by {
        reveal_strlit("url");
    }
    assert("currency"@.len() == 8) by {
        reveal_strlit("currency");
    }
    assert("price"@.len() == 5) by {
        reveal_strlit("price");
    }
    assert("is_hidden"@.len() == 9) by {
        reveal_strlit("is_hidden");
    }
    assert("max_available"@.len() == 13) by {
        reveal_strlit("max_available");
    }
    assert("availability"@.len() == 12) by {
        reveal_strlit("availability");
    }
    assert("checkmark"@.len() == 9) by {
        reveal_strlit("checkmark");
    }
    assert("whatsapp_product_can_appeal"@.len() == 27) by {
        reveal_strlit("whatsapp_product_can_appeal");
    }
    assert("is_approved"@.len() == 11) by {
        reveal_strlit("is_approved");
    }
    assert("approval_status"@.len() == 15) by {
        reveal_strlit("approval_status");
    }
    assert("signedShimmedUrl"@.len() == 16) by {
        reveal_strlit("signedShimmedUrl");
    }
    assert("images"@.len() == 6) by {
        reveal_strlit("images");
    }
    assert("retailer_id"@[0] != "description"@[0]) by {
        reveal_strlit("retailer_id");
        reveal_strlit("description");
    }
    assert("retailer_id"@[0] != "is_approved"@[0]) by {
        reveal_strlit("retailer_id");
        reveal_strlit("is_approved");
    }
    assert("description"@[0] != "is_approved"@[0]) by {
        reveal_strlit("description");
        reveal_strlit("is_approved");
    }
    assert("is_hidden"@[0] != "checkmark"@[0]) by {
        reveal_strlit("is_hidden");
        reveal_strlit("checkmark");
    }
}

/// The `images` column of any record holds the URLs of its image objects,
/// joined with `", "`, or the empty text where there is no array of images.
pub proof fn lemma_images_column(record: Json)
    ensures
        decode_named(record, "images"@) == Ok::<CellView, Seq<char>>(
            CellView::Text(images_text(record.member("images"@))),
        ),
{
    lemma_column_named_by_name(Column::Images);
}

} // verus!
