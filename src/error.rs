//! Error records of the backend's per-thread error queue, and stacks of them.
//!
//! A record is decoded from an entry that was popped off the queue
//! ([`Error::from_raw`]); a stack gathers records in the order in which they
//! were popped ([`ErrorStack::absorb`]); replaying a stack means executing the
//! [`PutRequest`]s that [`ErrorStack::put_requests`] plans, in order.
use crate::text::{dec, hex, signed_dec, to_dec, to_hex_padded, to_signed_dec, zero_padded};
use vstd::prelude::*;

verus! {

/// The backend's library id packed into an error code.
pub uninterp spec fn lib_id_of(code: u64) -> i32;

/// The backend's function id packed into an error code.
pub uninterp spec fn func_id_of(code: u64) -> i32;

/// The backend's reason id packed into an error code.
pub uninterp spec fn reason_id_of(code: u64) -> i32;

/// Relies on openssl_sys::ERR_GET_LIB: the library id of a code, in the
/// packing of the backend version that was built against (3.x or earlier).
#[verifier::external_body]
fn err_get_lib(code: u64) -> (r: i32)
    ensures
        r == lib_id_of(code),
        r == (if code & 0x8000_0000 != 0 { 2i32 } else { ((code >> 23u64) & 0xff) as i32 })
            || r == ((code >> 24u64) & 0xff) as i32,
{
    openssl_sys::ERR_GET_LIB(code as libc::c_ulong)
}

/// Relies on openssl_sys::ERR_GET_FUNC: the function id of a code (always
/// zero from the 3.x packing on).
#[verifier::external_body]
fn err_get_func(code: u64) -> (r: i32)
    ensures
        r == func_id_of(code),
        r == 0 || r == ((code >> 12u64) & 0xfff) as i32,
{
    openssl_sys::ERR_GET_FUNC(code as libc::c_ulong)
}

/// Relies on openssl_sys::ERR_GET_REASON: the reason id of a code.
#[verifier::external_body]
fn err_get_reason(code: u64) -> (r: i32)
    ensures
        r == reason_id_of(code),
        r == (if code & 0x8000_0000 != 0 { 2i32 } else { (code & 0x7f_ffff) as i32 })
            || r == (code & 0xfff) as i32,
{
    openssl_sys::ERR_GET_REASON(code as libc::c_ulong)
}

/// Relies on openssl_sys::ERR_TXT_STRING: the flag that marks an entry's
/// data as text.
#[verifier::external_body]
fn txt_string_flag() -> (r: i32)
    ensures
        r == 2,
{
    openssl_sys::ERR_TXT_STRING
}

/// Relies on openssl_sys::ERR_TXT_MALLOCED: the flag that marks an entry's
/// data as allocated by the backend (and freed with the queue slot).
#[verifier::external_body]
fn txt_malloced_flag() -> (r: i32)
    ensures
        r == 1,
{
    openssl_sys::ERR_TXT_MALLOCED
}

/// The flags of an entry say that its data is text.
pub open spec fn has_text(flags: i32) -> bool {
    flags & 2 != 0
}

/// The flags of an entry say that its data was allocated by the backend.
pub open spec fn is_malloced(flags: i32) -> bool {
    flags & 1 != 0
}

/// One entry as the backend's pop primitive hands it out. A `code` of zero
/// means that the queue was empty. `data` is the entry's data read as text
/// (absent where the pointer was null); it is only looked at when `flags`
/// mark it as text.
#[derive(Clone, Copy, Debug)]
pub struct RawEntry {
    pub code: u64,
    pub file: &'static str,
    pub line: i32,
    pub func: Option<&'static str>,
    pub data: Option<&'static str>,
    pub flags: i32,
}

/// The extra data of a record: a reference to text that the backend keeps,
/// or a copy taken when the backend would free its own.
#[derive(Clone, Debug)]
pub enum ErrorData {
    Borrowed(&'static str),
    Owned(String),
}

/// The model of a record's extra data.
pub struct DataView {
    pub text: Seq<char>,
    pub owned: bool,
}

impl View for ErrorData {
    type V = DataView;

    open spec fn view(&self) -> DataView {
        match self {
            ErrorData::Borrowed(s) => DataView { text: s@, owned: false },
            ErrorData::Owned(s) => DataView { text: s@, owned: true },
        }
    }
}

impl ErrorData {
    /// The text of the data.
    pub fn as_str(&self) -> (r: &str)
        ensures
            r@ == self@.text,
    {
        match self {
            ErrorData::Borrowed(s) => s,
            ErrorData::Owned(s) => s.as_str(),
        }
    }

    fn duplicate(&self) -> (r: ErrorData)
        ensures
            r@ == self@,
    {
        match self {
            ErrorData::Borrowed(s) => ErrorData::Borrowed(s),
            ErrorData::Owned(s) => ErrorData::Owned(s.clone()),
        }
    }
}

/// The model of a record.
pub struct ErrorView {
    pub code: u64,
    pub file: Seq<char>,
    pub line: i32,
    pub func: Option<Seq<char>>,
    pub data: Option<DataView>,
}

/// The text of an optional string.
pub open spec fn opt_text<'a>(o: Option<&'a str>) -> Option<Seq<char>> {
    match o {
        Some(s) => Some(s@),
        None => None,
    }
}

/// The model of optional extra data.
pub open spec fn opt_data(o: Option<ErrorData>) -> Option<DataView> {
    match o {
        Some(d) => Some(d@),
        None => None,
    }
}

/// The record that a popped entry stands for; none where the queue was empty.
pub open spec fn decode(
    code: u64,
    file: Seq<char>,
    line: i32,
    func: Option<Seq<char>>,
    data: Option<Seq<char>>,
    flags: i32,
) -> Option<ErrorView> {
    if code == 0 {
        None
    } else {
        Some(
            ErrorView {
                code,
                file,
                line,
                func,
                data: if has_text(flags) && data is Some {
                    Some(DataView { text: data->0, owned: is_malloced(flags) })
                } else {
                    None
                },
            },
        )
    }
}

/// The record that a popped entry stands for.
pub open spec fn record_of(raw: RawEntry) -> Option<ErrorView> {
    decode(raw.code, raw.file@, raw.line, opt_text(raw.func), opt_text(raw.data), raw.flags)
}

/// The records that draining a queue of popped entries gives: those before
/// the first empty pop, in order.
pub open spec fn drained(q: Seq<RawEntry>) -> Seq<ErrorView>
    decreases q.len(),
{
    if q.len() == 0 || q[0].code == 0 {
        Seq::empty()
    } else {
        seq![record_of(q[0])->0] + drained(q.drop_first())
    }
}

/// An error reported by the backend.
#[derive(Clone, Debug)]
pub struct Error {
    code: u64,
    file: &'static str,
    line: i32,
    func: Option<&'static str>,
    data: Option<ErrorData>,
}

impl View for Error {
    type V = ErrorView;

    closed spec fn view(&self) -> ErrorView {
        ErrorView {
            code: self.code,
            file: self.file@,
            line: self.line,
            func: opt_text(self.func),
            data: opt_data(self.data),
        }
    }
}

/// The model of an optional record.
pub open spec fn opt_error(o: Option<Error>) -> Option<ErrorView> {
    match o {
        Some(e) => Some(e@),
        None => None,
    }
}

impl Error {
    /// Builds the record that a popped entry stands for, or `None` where the
    /// pop found the queue empty. Data that the backend allocated is copied
    /// now, before its slot can be reused.
    pub fn from_raw(raw: RawEntry) -> (r: Option<Error>)
        ensures
            opt_error(r) == record_of(raw),
    {
        if raw.code == 0 {
            return None;
        }
        let data = if raw.flags & txt_string_flag() != 0 {
            match raw.data {
                Some(t) => {
                    if raw.flags & txt_malloced_flag() != 0 {
                        Some(ErrorData::Owned(String::from_str(t)))
                    } else {
                        Some(ErrorData::Borrowed(t))
                    }
                },
                None => None,
            }
        } else {
            None
        };
        Some(Error { code: raw.code, file: raw.file, line: raw.line, func: raw.func, data })
    }

    /// Returns the raw backend error code.
    pub fn code(&self) -> (r: u64)
        ensures
            r == self@.code,
    {
        self.code
    }

    /// Returns the name of the backend source file that raised the error.
    pub fn file(&self) -> (r: &'static str)
        ensures
            r@ == self@.file,
    {
        self.file
    }

    /// Returns the line in that source file.
    pub fn line(&self) -> (r: u32)
        ensures
            r == self@.line as u32,
    {
        self.line as u32
    }

    /// Returns the name of the backend function that raised the error.
    pub fn function(&self) -> (r: Option<&'static str>)
        ensures
            opt_text(r) == self@.func,
    {
        self.func
    }

    /// Returns the extra data of the error, if any.
    pub fn data(&self) -> (r: Option<&str>)
        ensures
            opt_text(r) == (match self@.data {
                Some(d) => Some(d.text),
                None => None::<Seq<char>>,
            }),
    {
        match &self.data {
            Some(d) => Some(d.as_str()),
            None => None,
        }
    }
}

/// The backend calls that push one record back onto the queue. From the 3.x
/// backends on, the push is a new entry with `file`, `line` and `func` as its
/// debug information and `lib` and `reason` as its error; earlier backends
/// take `lib`, `func_id`, `reason`, `file` and `line` in one call. Where
/// `data` is present it is then attached with `data_flags`; owned text is
/// first copied into memory of the backend's allocator.
pub struct PutRequest {
    pub lib: i32,
    pub func_id: i32,
    pub reason: i32,
    pub file: &'static str,
    pub line: i32,
    pub func: Option<&'static str>,
    pub data: Option<ErrorData>,
    pub data_flags: i32,
}

/// The flags with which extra data is handed back to the backend: text, and
/// allocated by the backend where the record owns its copy.
pub open spec fn data_flags_for(d: Option<DataView>) -> i32 {
    match d {
        Some(v) => if v.owned {
            3
        } else {
            2
        },
        None => 0,
    }
}

/// `r` is the request that replays the record `e`.
pub open spec fn request_for(r: PutRequest, e: ErrorView) -> bool {
    &&& r.lib == lib_id_of(e.code)
    &&& r.func_id == func_id_of(e.code)
    &&& r.reason == reason_id_of(e.code)
    &&& r.file@ == e.file
    &&& r.line == e.line
    &&& opt_text(r.func) == e.func
    &&& opt_data(r.data) == e.data
    &&& r.data_flags == data_flags_for(e.data)
}

/// The record that the backend hands back for an entry pushed by executing
/// `r`, where the entry carries the code `code`.
pub open spec fn replayed(code: u64, r: PutRequest) -> Option<ErrorView> {
    decode(
        code,
        r.file@,
        r.line,
        opt_text(r.func),
        match opt_data(r.data) {
            Some(v) => Some(v.text),
            None => None,
        },
        r.data_flags,
    )
}

/// One field of the text form: the resolved name, or `label(id)`.
pub open spec fn segment(name: Option<Seq<char>>, label: Seq<char>, id: i32) -> Seq<char> {
    match name {
        Some(n) => n,
        None => label + "("@ + signed_dec(id as int) + ")"@,
    }
}

/// The extra data as it stands in the text form: empty where absent.
pub open spec fn data_text(d: Option<DataView>) -> Seq<char> {
    match d {
        Some(v) => v.text,
        None => Seq::empty(),
    }
}

/// The text form of a record, given the library and reason names that the
/// backend resolved for its code and the ids packed into it.
pub open spec fn display_text(
    e: ErrorView,
    library: Option<Seq<char>>,
    lib_id: i32,
    func_id: i32,
    reason: Option<Seq<char>>,
    reason_id: i32,
) -> Seq<char> {
    "error:"@ + zero_padded(hex(e.code as nat), 8) + ":"@ + segment(library, "lib"@, lib_id) + ":"@
        + segment(e.func, "func"@, func_id) + ":"@ + segment(reason, "reason"@, reason_id) + ":"@
        + e.file + ":"@ + dec(e.line as u32 as nat) + ":"@ + data_text(e.data)
}

/// The text form of a record, with the ids that the backend unpacks from its
/// code.
pub open spec fn record_text(e: ErrorView, library: Option<Seq<char>>, reason: Option<Seq<char>>) -> Seq<
    char,
> {
    display_text(e, library, lib_id_of(e.code), func_id_of(e.code), reason, reason_id_of(e.code))
}

fn push_segment(s: &mut String, name: Option<&str>, label: &str, id: i32)
    ensures
        final(s)@ == old(s)@ + segment(opt_text(name), label@, id),
{
    match name {
        Some(n) => s.append(n),
        None => {
            s.append(label);
            s.append("(");
            s.append(to_signed_dec(id as i64).as_str());
            s.append(")");
        },
    }
}

impl Error {
    /// Plans the backend calls that push this record back onto the queue.
    pub fn put_request(&self) -> (r: PutRequest)
        ensures
            request_for(r, self@),
    {
        let data = match &self.data {
            Some(d) => Some(d.duplicate()),
            None => None,
        };
        let data_flags = match &self.data {
            Some(ErrorData::Owned(_)) => {
                let f = txt_malloced_flag() | txt_string_flag();
                assert(1i32 | 2i32 == 3i32) by (bit_vector);
                f
            },
            Some(ErrorData::Borrowed(_)) => txt_string_flag(),
            None => 0,
        };
        PutRequest {
            lib: err_get_lib(self.code),
            func_id: err_get_func(self.code),
            reason: err_get_reason(self.code),
            file: self.file,
            line: self.line,
            func: self.func,
            data,
            data_flags,
        }
    }

    /// The text form of this record, given the library and reason names that
    /// the backend resolved for its code and the ids packed into it.
    pub fn render_with_ids(
        &self,
        library: Option<&str>,
        lib_id: i32,
        func_id: i32,
        reason: Option<&str>,
        reason_id: i32,
    ) -> (r: String)
        ensures
            r@ == display_text(self@, opt_text(library), lib_id, func_id, opt_text(reason), reason_id),
    {
        let mut s = String::from_str("error:");
        s.append(to_hex_padded(self.code, 8).as_str());
        s.append(":");
        push_segment(&mut s, library, "lib", lib_id);
        s.append(":");
        push_segment(&mut s, self.func, "func", func_id);
        s.append(":");
        push_segment(&mut s, reason, "reason", reason_id);
        s.append(":");
        s.append(self.file);
        s.append(":");
        s.append(to_dec(self.line() as u64).as_str());
        s.append(":");
        match &self.data {
            Some(d) => s.append(d.as_str()),
            None => {
                assert(s@ + Seq::<char>::empty() =~= s@);
            },
        }
        s
    }

    /// The text form of this record, given the library and reason names that
    /// the backend resolved for its code.
    pub fn render(&self, library: Option<&str>, reason: Option<&str>) -> (r: String)
        ensures
            r@ == record_text(self@, opt_text(library), opt_text(reason)),
    {
        let lib_id = err_get_lib(self.code);
        let func_id = err_get_func(self.code);
        let reason_id = err_get_reason(self.code);
        self.render_with_ids(library, lib_id, func_id, reason, reason_id)
    }
}

/// The library and reason names that the backend resolved for one record's
/// code.
#[derive(Clone, Copy, Debug)]
pub struct Names {
    pub library: Option<&'static str>,
    pub reason: Option<&'static str>,
}

/// The records joined by `, `, the first `k` of them.
pub open spec fn joined(s: Seq<ErrorView>, names: Seq<Names>, k: nat) -> Seq<char>
    decreases k,
{
    if k == 0 {
        Seq::empty()
    } else {
        let i = (k - 1) as int;
        joined(s, names, (k - 1) as nat) + (if k > 1 {
            ", "@
        } else {
            Seq::empty()
        }) + record_text(s[i], opt_text(names[i].library), opt_text(names[i].reason))
    }
}

/// The text form of a stack: the fixed message where it is empty, else its
/// records joined by `, ` in order.
pub open spec fn stack_text(s: Seq<ErrorView>, names: Seq<Names>) -> Seq<char> {
    if s.len() == 0 {
        "OpenSSL error"@
    } else {
        joined(s, names, s.len())
    }
}

/// The errors drained from the backend's queue, oldest first.
#[derive(Clone, Debug)]
pub struct ErrorStack {
    errors: Vec<Error>,
}

impl View for ErrorStack {
    type V = Seq<ErrorView>;

    closed spec fn view(&self) -> Seq<ErrorView> {
        self.errors@.map_values(|e: Error| e@)
    }
}

impl ErrorStack {
    /// A stack with no errors.
    pub fn new() -> (r: ErrorStack)
        ensures
            r@ == Seq::<ErrorView>::empty(),
    {
        let r = ErrorStack { errors: Vec::new() };
        assert(r@ =~= Seq::<ErrorView>::empty());
        r
    }

    /// Takes one entry popped off the backend's queue. Returns whether the
    /// drain goes on: false where the pop found the queue empty, in which
    /// case the stack is left as it was.
    pub fn absorb(&mut self, raw: RawEntry) -> (more: bool)
        ensures
            more == (raw.code != 0),
            final(self)@ == old(self)@ + drained(seq![raw]),
    {
        let ghost one = seq![raw];
        assert(one.drop_first() =~= Seq::<RawEntry>::empty());
        match Error::from_raw(raw) {
            Some(e) => {
                assert(drained(one.drop_first()) =~= Seq::<ErrorView>::empty());
                assert(drained(one) =~= seq![e@]);
                self.errors.push(e);
                assert(self.errors@.map_values(|e: Error| e@) =~= old(self).errors@.map_values(
                    |e: Error| e@,
                ).push(e@));
                assert(self@ =~= old(self)@ + drained(one));
                true
            },
            None => {
                assert(self@ =~= old(self)@ + drained(one));
                false
            },
        }
    }

    /// Returns the errors in the stack.
    pub fn errors(&self) -> (r: &[Error])
        ensures
            r@.map_values(|e: Error| e@) == self@,
    {
        self.errors.as_slice()
    }

    /// Plans the replay of the stack: one request per error, in order.
    pub fn put_requests(&self) -> (r: Vec<PutRequest>)
        ensures
            r@.len() == self@.len(),
            forall|i: int| 0 <= i < r@.len() ==> request_for(#[trigger] r@[i], self@[i]),
    {
        let mut r: Vec<PutRequest> = Vec::new();
        let mut i: usize = 0;
        while i < self.errors.len()
            invariant
                i <= self.errors@.len(),
                r@.len() == i,
                forall|j: int| 0 <= j < i ==> request_for(#[trigger] r@[j], self@[j]),
            decreases self.errors@.len() - i,
        {
            r.push(self.errors[i].put_request());
            i = i + 1;
        }
        r
    }

    /// The text form of the stack, given for each error the names that the
    /// backend resolved for its code.
    pub fn render(&self, names: &Vec<Names>) -> (r: String)
        requires
            names@.len() == self@.len(),
        ensures
            r@ == stack_text(self@, names@),
    {
        if self.errors.len() == 0 {
            return String::from_str("OpenSSL error");
        }
        let mut r = String::new();
        let mut i: usize = 0;
        while i < self.errors.len()
            invariant
                i <= self.errors@.len(),
                names@.len() == self.errors@.len(),
                self@.len() == self.errors@.len(),
                r@ == joined(self@, names@, i as nat),
            decreases self.errors@.len() - i,
        {
            if i > 0 {
                r.append(", ");
            } else {
                assert(r@ + Seq::<char>::empty() =~= r@);
            }
            let n = names[i];
            r.append(self.errors[i].render(n.library, n.reason).as_str());
            i = i + 1;
        }
        r
    }
}

/// Draining stops at the first empty pop: whatever the queue hands out after
/// it is not taken.
pub proof fn lemma_drain_stops_at_empty(q: Seq<RawEntry>, end: RawEntry, rest: Seq<RawEntry>)
    requires
        end.code == 0,
    ensures
        drained(q.push(end) + rest) == drained(q.push(end)),
    decreases q.len(),
{
    if q.len() == 0 {
        assert((q.push(end) + rest)[0] == end);
    } else if q[0].code != 0 {
        assert((q.push(end) + rest).drop_first() =~= q.drop_first().push(end) + rest);
        assert(q.push(end).drop_first() =~= q.drop_first().push(end));
        lemma_drain_stops_at_empty(q.drop_first(), end, rest);
    } else {
        assert((q.push(end) + rest)[0] == q[0]);
    }
}

/// Draining a queue that holds the diagnostics raised since the last drain
/// gives one record per diagnostic, in the order in which they were raised.
pub proof fn lemma_drain_keeps_raise_order(q: Seq<RawEntry>, end: RawEntry)
    requires
        forall|i: int| 0 <= i < q.len() ==> (#[trigger] q[i]).code != 0,
        end.code == 0,
    ensures
        drained(q.push(end)).len() == q.len(),
        forall|i: int|
            0 <= i < q.len() ==> Some(#[trigger] drained(q.push(end))[i]) == record_of(q[i]),
    decreases q.len(),
{
    if q.len() == 0 {
        assert(q.push(end)[0] == end);
    } else {
        let t = q.drop_first();
        assert(q.push(end).drop_first() =~= t.push(end));
        assert forall|i: int| 0 <= i < t.len() implies (#[trigger] t[i]).code != 0 by {
            assert(t[i] == q[i + 1]);
        }
        lemma_drain_keeps_raise_order(t, end);
        assert forall|i: int| 0 <= i < q.len() implies Some(
            #[trigger] drained(q.push(end))[i],
        ) == record_of(q[i]) by {
            if i > 0 {
                assert(q[i] == t[i - 1]);
            }
        }
    }
}

/// Draining entry by entry is the drain of the whole queue: taking one entry
/// that holds a record, then draining the rest, drains the queue.
pub proof fn lemma_drain_step(raw: RawEntry, rest: Seq<RawEntry>)
    requires
        raw.code != 0,
    ensures
        drained(seq![raw] + rest) == drained(seq![raw]) + drained(rest),
{
    assert((seq![raw] + rest).drop_first() =~= rest);
    assert(seq![raw].drop_first() =~= Seq::<RawEntry>::empty());
    assert(drained(Seq::<RawEntry>::empty()) =~= Seq::<ErrorView>::empty());
    assert(drained(seq![raw]) + drained(rest) =~= seq![record_of(raw)->0] + drained(rest));
}

/// Replaying a stack and draining it again gives the stack back. Each
/// request, handed back by the backend under its record's code, decodes to
/// that record, with the same file, line, function and extra data; so a queue
/// that hands the replayed entries back in the order they were pushed drains
/// to the same records in the same order.
pub proof fn lemma_put_then_get(
    s: ErrorStack,
    reqs: Seq<PutRequest>,
    q: Seq<RawEntry>,
    end: RawEntry,
)
    requires
        reqs.len() == s@.len(),
        forall|i: int| 0 <= i < reqs.len() ==> request_for(#[trigger] reqs[i], s@[i]),
        forall|i: int| 0 <= i < s@.len() ==> (#[trigger] s@[i]).code != 0,
        q.len() == reqs.len(),
        forall|i: int| 0 <= i < q.len() ==> #[trigger] record_of(q[i]) == replayed(s@[i].code, reqs[i]),
        end.code == 0,
    ensures
        forall|i: int| 0 <= i < reqs.len() ==> #[trigger] replayed(s@[i].code, reqs[i]) == Some(s@[i]),
        drained(q.push(end)) == s@,
{
    assert(3i32 & 2i32 != 0 && 3i32 & 1i32 != 0 && 2i32 & 2i32 != 0 && 2i32 & 1i32 == 0)
        by (bit_vector);
    assert forall|i: int| 0 <= i < reqs.len() implies #[trigger] replayed(s@[i].code, reqs[i])
        == Some(s@[i]) by {
        let e = s@[i];
        let r = reqs[i];
        assert(request_for(r, e));
        match e.data {
            Some(v) => {
                assert(opt_data(r.data) == Some(v));
            },
            None => {},
        }
    }
    assert forall|i: int| 0 <= i < q.len() implies (#[trigger] q[i]).code != 0 by {
        assert(record_of(q[i]) == replayed(s@[i].code, reqs[i]));
    }
    lemma_drain_keeps_raise_order(q, end);
    assert forall|i: int| 0 <= i < s@.len() implies drained(q.push(end))[i] == s@[i] by {
        assert(record_of(q[i]) == replayed(s@[i].code, reqs[i]));
    }
    assert(drained(q.push(end)) =~= s@);
}

/// Where no operation failed since the last drain, the first pop finds the
/// queue empty: the drain gives no record, and the stack reads as the fixed
/// message, which is not empty.
pub proof fn lemma_empty_drain_reads_as_message(end: RawEntry, rest: Seq<RawEntry>, names: Seq<Names>)
    requires
        end.code == 0,
    ensures
        drained(seq![end] + rest).len() == 0,
        stack_text(drained(seq![end] + rest), names) == "OpenSSL error"@,
        stack_text(drained(seq![end] + rest), names).len() > 0,
{
    assert((seq![end] + rest)[0] == end);
    reveal_strlit("OpenSSL error");
}

} // verus!
