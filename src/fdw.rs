use vstd::prelude::*;

use crate::decode::{
    all_known, cells_of, decode_row, lemma_project_known, names_of, project, row_view, Cell,
    CellView,
};
use crate::error::{FdwError, Operation, SchemaProblem};
use crate::json::{json_of, Json};

verus! {

/// Where the product list is served.
pub const BASE_URL: &'static str = "https://api.p.2chat.io/open/whatsapp/catalog/products";

/// How the adapter names itself to the remote API.
pub const USER_AGENT: &'static str = "WhatsApp Catalog FDW";

/// The header that carries the API key.
pub const API_KEY_HEADER: &'static str = "X-User-API-Key";

/// The host versions that the adapter works with.
pub const HOST_VERSION: &'static str = "^0.1.0";

/// The connection settings, as characters.
pub struct ConfigView {
    pub base_url: Seq<char>,
    pub phone_number: Seq<char>,
    pub from_number: Seq<char>,
    pub api_key: Seq<char>,
}

/// The row buffer and its cursor: the records of the current scan and the
/// index of the next one to emit.
pub struct ScanModel {
    pub rows: Seq<Json>,
    pub cursor: nat,
}

/// The outcome of one `iter_scan`: a row, the end of the scan, or the first
/// requested name that the adapter does not know.
pub type StepOutput = Result<Option<Seq<CellView>>, Seq<char>>;

/// One `iter_scan` on the columns named `names`: the buffer after it, and what it
/// returns. An exhausted buffer stays as it is; so does one whose next record
/// cannot be projected.
pub open spec fn scan_step(m: ScanModel, names: Seq<Seq<char>>) -> (ScanModel, StepOutput) {
    if m.cursor >= m.rows.len() {
        (m, Ok(None))
    } else {
        match project(m.rows[m.cursor as int], names) {
            Err(n) => (m, Err(n)),
            Ok(cells) => (ScanModel { rows: m.rows, cursor: m.cursor + 1 }, Ok(Some(cells))),
        }
    }
}

/// `k` calls of `iter_scan` in a row: the buffer after them, and what each returned.
pub open spec fn scan_run(m: ScanModel, names: Seq<Seq<char>>, k: nat) -> (ScanModel, Seq<StepOutput>)
    decreases k,
{
    if k == 0 {
        (m, Seq::empty())
    } else {
        let (m1, outs) = scan_run(m, names, (k - 1) as nat);
        let (m2, out) = scan_step(m1, names);
        (m2, outs.push(out))
    }
}

/// The buffer after `end_scan`: empty, with its cursor at the start.
pub open spec fn ended(m: ScanModel) -> ScanModel {
    ScanModel { rows: Seq::empty(), cursor: 0 }
}

/// Whether a response reports success.
pub open spec fn succeeded(response: Json) -> bool {
    response.member("success"@) == Some(Json::Bool(true))
}

/// The `products` member of a response.
pub open spec fn products(response: Json) -> Option<Json> {
    response.member("products"@)
}

/// A scan from the start of a freshly loaded buffer, on known columns, emits one
/// row per record in the buffer's order, then the end of the scan on every
/// further call; the cursor stops at the end of the buffer.
pub proof fn lemma_scan_emits_rows_in_order(rows: Seq<Json>, names: Seq<Seq<char>>, k: nat)
    requires
        all_known(names),
    ensures
        scan_run(ScanModel { rows, cursor: 0 }, names, k).0 == (ScanModel {
            rows,
            cursor: if k < rows.len() {
                k
            } else {
                rows.len()
            },
        }),
        scan_run(ScanModel { rows, cursor: 0 }, names, k).1.len() == k,
        forall|i: int|
            0 <= i < k ==> #[trigger] scan_run(ScanModel { rows, cursor: 0 }, names, k).1[i] == if i
                < rows.len() {
                Ok::<Option<Seq<CellView>>, Seq<char>>(Some(cells_of(rows[i], names)))
            } else {
                Ok::<Option<Seq<CellView>>, Seq<char>>(None)
            },
    decreases k,
{
    if k > 0 {
        let start = ScanModel { rows, cursor: 0 };
        lemma_scan_emits_rows_in_order(rows, names, (k - 1) as nat);
        let (m1, outs) = scan_run(start, names, (k - 1) as nat);
        if m1.cursor < rows.len() {
            lemma_project_known(rows[m1.cursor as int], names);
        }
        let (m2, out) = scan_step(m1, names);
        assert(scan_run(start, names, k).1 == outs.push(out));
        assert forall|i: int| 0 <= i < k implies #[trigger] scan_run(start, names, k).1[i] == if i
            < rows.len() {
            Ok::<Option<Seq<CellView>>, Seq<char>>(Some(cells_of(rows[i], names)))
        } else {
            Ok::<Option<Seq<CellView>>, Seq<char>>(None)
        } by {
            if i < k - 1 {
                assert(outs.push(out)[i] == outs[i]);
            }
        }
    }
}

/// Ending a scan empties the buffer and rewinds the cursor, whatever the
/// state; ending it again changes nothing.
pub proof fn lemma_end_scan_resets(m: ScanModel)
    ensures
        ended(m).rows.len() == 0,
        ended(m).cursor == 0,
        ended(ended(m)) == ended(m),
{
}

/// The request that fetches the product list.
pub struct ScanRequest {
    pub url: String,
    pub headers: Vec<(String, String)>,
}

/// The adapter: its settings, fixed at `init`, and the row buffer of the
/// current scan.
pub struct ExampleFdw {
    base_url: String,
    phone_number: String,
    from_number: String,
    api_key: String,
    src_rows: Vec<Json>,
    src_idx: usize,
}

impl ExampleFdw {
    pub closed spec fn config(&self) -> ConfigView {
        ConfigView {
            base_url: self.base_url@,
            phone_number: self.phone_number@,
            from_number: self.from_number@,
            api_key: self.api_key@,
        }
    }

    pub closed spec fn model(&self) -> ScanModel {
        ScanModel { rows: self.src_rows@, cursor: self.src_idx as nat }
    }

    /// The settings are the fixed endpoint and three non-empty options, and the
    /// cursor stands within the buffer.
    pub open spec fn wf(&self) -> bool {
        &&& self.config().base_url == BASE_URL@
        &&& self.config().phone_number.len() > 0
        &&& self.config().from_number.len() > 0
        &&& self.config().api_key.len() > 0
        &&& self.model().cursor <= self.model().rows.len()
    }

    /// The host versions that the adapter works with.
    pub fn host_version_requirement() -> (r: String)
        ensures
            r@ == HOST_VERSION@,
    {
        HOST_VERSION.to_owned()
    }

    /// Sets the adapter up from its three connection options, with an empty
    /// buffer. The first empty option, in the order phone number, sender
    /// number, API key, fails with `MissingOption` naming its key.
    pub fn init(phone_number: &str, from_number: &str, api_key: &str) -> (r: Result<
        ExampleFdw,
        FdwError,
    >)
        ensures
            phone_number@.len() == 0 ==> (r matches Err(FdwError::MissingOption(k)) && k@
                == "phone_number"@),
            phone_number@.len() > 0 && from_number@.len() == 0 ==> (r matches Err(
                FdwError::MissingOption(k),
            ) && k@ == "from_number"@),
            phone_number@.len() > 0 && from_number@.len() > 0 && api_key@.len() == 0 ==> (
            r matches Err(FdwError::MissingOption(k)) && k@ == "api_key"@),
            phone_number@.len() > 0 && from_number@.len() > 0 && api_key@.len() > 0 ==> (
            r matches Ok(fdw) && fdw.wf() && fdw.config() == (ConfigView {
                base_url: BASE_URL@,
                phone_number: phone_number@,
                from_number: from_number@,
                api_key: api_key@,
            }) && fdw.model() == (ScanModel { rows: Seq::empty(), cursor: 0 })),
    {
        if phone_number.is_empty() {
            return Err(FdwError::MissingOption("phone_number".to_owned()));
        }
        if from_number.is_empty() {
            return Err(FdwError::MissingOption("from_number".to_owned()));
        }
        if api_key.is_empty() {
            return Err(FdwError::MissingOption("api_key".to_owned()));
        }
        Ok(ExampleFdw {
            base_url: BASE_URL.to_owned(),
            phone_number: phone_number.to_owned(),
            from_number: from_number.to_owned(),
            api_key: api_key.to_owned(),
            src_rows: Vec::new(),
            src_idx: 0,
        })
    }

    /// The request that fetches the product list: a GET of
    /// `{base}/{phone_number}?from_number={from_number}`, naming the client and
    /// carrying the API key.
    pub fn scan_request(&self) -> (r: ScanRequest)
        ensures
            r.url@ == self.config().base_url + "/"@ + self.config().phone_number
                + "?from_number="@ + self.config().from_number,
            r.headers@.len() == 2,
            r.headers@[0].0@ == "user-agent"@,
            r.headers@[0].1@ == USER_AGENT@,
            r.headers@[1].0@ == API_KEY_HEADER@,
            r.headers@[1].1@ == self.config().api_key,
    {
        let mut url = self.base_url.clone();
        url.append("/");
        url.append(self.phone_number.as_str());
        url.append("?from_number=");
        url.append(self.from_number.as_str());
        let mut headers: Vec<(String, String)> = Vec::new();
        headers.push(("user-agent".to_owned(), USER_AGENT.to_owned()));
        headers.push((API_KEY_HEADER.to_owned(), self.api_key.clone()));
        ScanRequest { url, headers }
    }

    /// Fills the buffer from a decoded response and puts the cursor at its
    /// start. A response that does not report success fails with `ApiError`;
    /// one without a `products` array fails with `SchemaError`. On failure the
    /// buffer is left as it was.
    pub fn load_response(&mut self, response: Json) -> (r: Result<(), FdwError>)
        requires
            old(self).wf(),
        ensures
            final(self).wf(),
            final(self).config() == old(self).config(),
            !succeeded(response) ==> (r matches Err(FdwError::ApiError) && final(self).model()
                == old(self).model()),
            succeeded(response) ==> match products(response) {
                None => r matches Err(FdwError::SchemaError(SchemaProblem::MissingProducts))
                    && final(self).model() == old(self).model(),
                Some(Json::Array(items)) => r is Ok && final(self).model() == (ScanModel {
                    rows: items@,
                    cursor: 0,
                }),
                Some(_) => r matches Err(FdwError::SchemaError(SchemaProblem::ProductsNotArray))
                    && final(self).model() == old(self).model(),
            },
    {
        let ok = match response.get("success") {
            Some(Json::Bool(b)) => *b,
            _ => false,
        };
        if !ok {
            return Err(FdwError::ApiError);
        }
        match response.take("products") {
            None => Err(FdwError::SchemaError(SchemaProblem::MissingProducts)),
            Some(Json::Array(items)) => {
                self.src_rows = items;
                self.src_idx = 0;
                Ok(())
            },
            Some(_) => Err(FdwError::SchemaError(SchemaProblem::ProductsNotArray)),
        }
    }

    /// Starts a scan from the outcome of the request of [`Self::scan_request`]:
    /// the response body, or the transport's message where the request could not
    /// be completed. A transport failure gives `TransportError`, a body that is
    /// not JSON gives `DecodeError`, and the document it holds is then loaded as
    /// [`Self::load_response`] says. On failure the buffer is left as it was.
    pub fn begin_scan(&mut self, fetched: Result<String, String>) -> (r: Result<(), FdwError>)
        requires
            old(self).wf(),
        ensures
            final(self).wf(),
            final(self).config() == old(self).config(),
            r is Err ==> final(self).model() == old(self).model(),
            match fetched {
                Err(m) => r matches Err(FdwError::TransportError(n)) && n@ == m@,
                Ok(body) => match json_of(body@) {
                    None => r matches Err(FdwError::DecodeError(_)),
                    Some(response) => if !succeeded(response) {
                        r matches Err(FdwError::ApiError)
                    } else {
                        match products(response) {
                            None => r matches Err(
                                FdwError::SchemaError(SchemaProblem::MissingProducts),
                            ),
                            Some(Json::Array(items)) => r is Ok && final(self).model() == (
                            ScanModel { rows: items@, cursor: 0 }),
                            Some(_) => r matches Err(
                                FdwError::SchemaError(SchemaProblem::ProductsNotArray),
                            ),
                        }
                    },
                },
            },
    {
        match fetched {
            Err(m) => Err(FdwError::TransportError(m)),
            Ok(body) => match Json::parse(body.as_str()) {
                Err(e) => Err(e),
                Ok(response) => self.load_response(response),
            },
        }
    }

    /// Emits the row at the cursor, projected onto the columns named in
    /// `columns`, and moves the cursor on; `None` once every record has been
    /// emitted. An unknown column name fails the call with `UnsupportedColumn`
    /// and leaves the cursor where it was.
    pub fn iter_scan(&mut self, columns: &Vec<String>) -> (r: Result<Option<Vec<Cell>>, FdwError>)
        requires
            old(self).wf(),
        ensures
            final(self).wf(),
            final(self).config() == old(self).config(),
            final(self).model() == scan_step(old(self).model(), names_of(columns@)).0,
            match scan_step(old(self).model(), names_of(columns@)).1 {
                Ok(None) => r matches Ok(None),
                Ok(Some(cells)) => r matches Ok(Some(row)) && row_view(row@) == cells,
                Err(n) => r matches Err(FdwError::UnsupportedColumn(m)) && m@ == n,
            },
    {
        if self.src_idx >= self.src_rows.len() {
            return Ok(None);
        }
        match decode_row(&self.src_rows[self.src_idx], columns) {
            Err(e) => Err(e),
            Ok(row) => {
                self.src_idx = self.src_idx + 1;
                Ok(Some(row))
            },
        }
    }

    /// Restarting a scan is not offered: begin a new one instead.
    pub fn re_scan(&self) -> (r: Result<(), FdwError>)
        ensures
            r matches Err(FdwError::Unsupported(Operation::ReScan)),
    {
        Err(FdwError::Unsupported(Operation::ReScan))
    }

    /// Empties the buffer and puts the cursor back at the start, whatever the
    /// state; the settings stay.
    pub fn end_scan(&mut self) -> (r: Result<(), FdwError>)
        requires
            old(self).wf(),
        ensures
            r is Ok,
            final(self).wf(),
            final(self).config() == old(self).config(),
            final(self).model() == ended(old(self).model()),
    {
        self.src_rows.clear();
        self.src_idx = 0;
        Ok(())
    }

    /// Writing is not offered: the adapter is read-only.
    pub fn begin_modify(&self) -> (r: Result<(), FdwError>)
        ensures
            r matches Err(FdwError::Unsupported(Operation::Modify)),
    {
        Err(FdwError::Unsupported(Operation::Modify))
    }

    /// Does nothing: rows are never written.
    pub fn insert(&self, row: &Vec<Cell>) -> (r: Result<(), FdwError>)
        ensures
            r is Ok,
    {
        Ok(())
    }

    /// Does nothing: rows are never written.
    pub fn update(&self, rowid: &Cell, row: &Vec<Cell>) -> (r: Result<(), FdwError>)
        ensures
            r is Ok,
    {
        Ok(())
    }

    /// Does nothing: rows are never written.
    pub fn delete(&self, rowid: &Cell) -> (r: Result<(), FdwError>)
        ensures
            r is Ok,
    {
        Ok(())
    }

    /// Does nothing: rows are never written.
    pub fn end_modify(&self) -> (r: Result<(), FdwError>)
        ensures
            r is Ok,
    {
        Ok(())
    }
}

} // verus!
