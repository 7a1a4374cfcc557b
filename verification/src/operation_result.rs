//! The failure taxonomy for per-file content operations: four leaf error
//! kinds, each carrying directory context and a reason, and the unified
//! wrapper returned by every per-file operation.

use vstd::prelude::*;

verus! {

/// An owned diagnostic cause forwarded from a collaborator: a message plus
/// an optional next cause further down the chain.
#[derive(Debug)]
pub struct Cause {
    pub message: String,
    pub source: Option<Box<Cause>>,
}

impl Cause {
    /// The next cause down the chain, if any, as a plain value.
    pub open spec fn source_spec(&self) -> Option<Cause> {
        match self.source {
            None => None,
            Some(c) => Some(*c),
        }
    }

    /// A terminal cause with no further chain.
    pub fn new(message: &str) -> (r: Self)
        ensures
            r.message@ == message@,
            r.source_spec() is None,
    {
        Cause { message: message.to_owned(), source: None }
    }

    /// A cause chained on top of an underlying one.
    pub fn chained(message: &str, source: Cause) -> (r: Self)
        ensures
            r.message@ == message@,
            r.source_spec() == Some(source),
    {
        Cause { message: message.to_owned(), source: Some(Box::new(source)) }
    }

    /// The next cause down the chain, if any.
    pub fn source(&self) -> (r: Option<&Cause>)
        ensures
            r matches Some(c) ==> self.source_spec() == Some(*c),
            r is None <==> self.source_spec() is None,
    {
        match &self.source {
            None => None,
            Some(c) => Some(&**c),
        }
    }
}

/// A native I/O failure as this taxonomy records it: the message the native
/// error displays and the native error's own optional cause chain, both fixed
/// when the failure is classified.
#[derive(Debug)]
pub struct IoError {
    pub message: String,
    pub source: Option<Box<Cause>>,
}

impl IoError {
    /// What this failure renders as: the native error's message, untransformed.
    pub open spec fn display_spec(&self) -> Seq<char> {
        self.message@
    }

    /// The native error's own cause, if the platform error chains one.
    pub open spec fn source_spec(&self) -> Option<Cause> {
        match self.source {
            None => None,
            Some(c) => Some(*c),
        }
    }

    /// An I/O failure whose native error carries no cause of its own.
    pub fn new(message: &str) -> (r: Self)
        ensures
            r.message@ == message@,
            r.source_spec() is None,
    {
        IoError { message: message.to_owned(), source: None }
    }

    /// An I/O failure whose native error chains an underlying cause.
    pub fn with_source(message: &str, source: Cause) -> (r: Self)
        ensures
            r.message@ == message@,
            r.source_spec() == Some(source),
    {
        IoError { message: message.to_owned(), source: Some(Box::new(source)) }
    }

    /// Renders the failure for logging.
    pub fn display(&self) -> (r: String)
        ensures
            r@ == self.display_spec(),
    {
        self.message.clone()
    }

    /// The native error's own cause, if any.
    pub fn source(&self) -> (r: Option<&Cause>)
        ensures
            r matches Some(c) ==> self.source_spec() == Some(*c),
            r is None <==> self.source_spec() is None,
    {
        match &self.source {
            None => None,
            Some(c) => Some(&**c),
        }
    }
}

/// The file was read but its content could not be interpreted as a valid
/// content document.
#[derive(Debug)]
pub struct ParseError {
    pub info: String,
    pub directory: String,
    pub error: Option<Box<Cause>>,
}

impl ParseError {
    /// What this error renders as: the directory context, the reason, and the
    /// consequence for the batch.
    pub open spec fn display_spec(&self) -> Seq<char> {
        "Error at "@ + self.directory@ + ". "@ + self.info@ + ". Skipping."@
    }

    /// The cause this error reports: the chained cause's own next cause. The
    /// immediate wrapped cause is already shown by the error's own rendering,
    /// so cause lookup skips one level down the chain.
    pub open spec fn source_spec(&self) -> Option<Cause> {
        match self.error {
            None => None,
            Some(c) => c.source_spec(),
        }
    }

    /// A parse failure with no underlying cause.
    pub fn new(directory: &str, info: &str) -> (r: Self)
        ensures
            r.directory@ == directory@,
            r.info@ == info@,
            r.error is None,
    {
        ParseError { directory: directory.to_owned(), info: info.to_owned(), error: None }
    }

    /// A parse failure forwarding an already-owned underlying cause.
    pub fn with_cause(directory: &str, info: &str, error: Cause) -> (r: Self)
        ensures
            r.directory@ == directory@,
            r.info@ == info@,
            r.error matches Some(c) && *c == error,
    {
        ParseError {
            directory: directory.to_owned(),
            info: info.to_owned(),
            error: Some(Box::new(error)),
        }
    }

    /// Renders the error for logging.
    pub fn display(&self) -> (r: String)
        ensures
            r@ == self.display_spec(),
    {
        let mut s = String::from_str("Error at ");
        s.append(self.directory.as_str());
        s.append(". ");
        s.append(self.info.as_str());
        s.append(". Skipping.");
        s
    }

    /// The reason this error was raised.
    pub fn description(&self) -> (r: &str)
        ensures
            r@ == self.info@,
    {
        self.info.as_str()
    }

    /// Cause lookup: one level past the immediate wrapped cause.
    pub fn source(&self) -> (r: Option<&Cause>)
        ensures
            r matches Some(c) ==> self.source_spec() == Some(*c),
            r is None <==> self.source_spec() is None,
    {
        match &self.error {
            None => None,
            Some(c) => (&**c).source(),
        }
    }
}

/// A deliberate, non-fatal decision to exclude an item from the batch
/// (for example a draft or an unsupported format). Never carries a cause:
/// it is a terminal decision, not a forwarded failure.
#[derive(Debug)]
pub struct Skip {
    pub reason: String,
    pub directory: String,
}

impl PartialEq for Skip {
    fn eq(&self, other: &Self) -> (r: bool) {
        self.reason == other.reason && self.directory == other.directory
    }
}

impl vstd::std_specs::cmp::PartialEqSpecImpl for Skip {
    open spec fn obeys_eq_spec() -> bool {
        true
    }

    open spec fn eq_spec(&self, other: &Self) -> bool {
        self.reason@ == other.reason@ && self.directory@ == other.directory@
    }
}

impl Skip {
    /// What this decision renders as: the directory context and the reason.
    pub open spec fn display_spec(&self) -> Seq<char> {
        "Skipping "@ + self.directory@ + ". "@ + self.reason@
    }

    /// A skip decision over the given directory context, for the given reason.
    pub fn new(directory: &str, reason: &str) -> (r: Self)
        ensures
            r.directory@ == directory@,
            r.reason@ == reason@,
    {
        Skip { directory: directory.to_owned(), reason: reason.to_owned() }
    }

    /// Renders the decision for logging.
    pub fn display(&self) -> (r: String)
        ensures
            r@ == self.display_spec(),
    {
        let mut s = String::from_str("Skipping ");
        s.append(self.directory.as_str());
        s.append(". ");
        s.append(self.reason.as_str());
        s
    }

    /// The reason this item was skipped.
    pub fn description(&self) -> (r: &str)
        ensures
            r@ == self.reason@,
    {
        self.reason.as_str()
    }

    /// Cause lookup: a skip decision never chains a cause.
    pub fn source(&self) -> (r: Option<&Cause>)
        ensures
            r is None,
    {
        None
    }
}

/// The file path could not be manipulated into the form required by
/// downstream logic (for example deriving a slug from a malformed path).
/// Never carries a cause: it is a derivation local to this code, not a
/// forwarded failure.
#[derive(Debug)]
pub struct PathError {
    pub reason: String,
    pub directory: String,
}

impl PartialEq for PathError {
    fn eq(&self, other: &Self) -> (r: bool) {
        self.reason == other.reason && self.directory == other.directory
    }
}

impl vstd::std_specs::cmp::PartialEqSpecImpl for PathError {
    open spec fn obeys_eq_spec() -> bool {
        true
    }

    open spec fn eq_spec(&self, other: &Self) -> bool {
        self.reason@ == other.reason@ && self.directory@ == other.directory@
    }
}

impl PathError {
    /// What this error renders as: the directory context and the reason.
    pub open spec fn display_spec(&self) -> Seq<char> {
        "Skipping "@ + self.directory@ + ". "@ + self.reason@
    }

    /// A path-manipulation failure over the given directory context.
    pub fn new(directory: &str, reason: &str) -> (r: Self)
        ensures
            r.directory@ == directory@,
            r.reason@ == reason@,
    {
        PathError { directory: directory.to_owned(), reason: reason.to_owned() }
    }

    /// Renders the error for logging.
    pub fn display(&self) -> (r: String)
        ensures
            r@ == self.display_spec(),
    {
        let mut s = String::from_str("Skipping ");
        s.append(self.directory.as_str());
        s.append(". ");
        s.append(self.reason.as_str());
        s
    }

    /// The reason the path could not be manipulated.
    pub fn description(&self) -> (r: &str)
        ensures
            r@ == self.reason@,
    {
        self.reason.as_str()
    }

    /// Cause lookup: a path-manipulation failure never chains a cause.
    pub fn source(&self) -> (r: Option<&Cause>)
        ensures
            r is None,
    {
        None
    }
}

/// The single failure type every per-file operation returns: exactly one of
/// the four leaf kinds, tagged with the stage category that produced it.
#[derive(Debug)]
pub enum OperationResult {
    Io(IoError),
    Parse(ParseError),
    Skip(Skip),
    Path(PathError),
}

impl From<IoError> for OperationResult {
    fn from(err: IoError) -> (r: Self) {
        OperationResult::Io(err)
    }
}

impl vstd::std_specs::convert::FromSpecImpl<IoError> for OperationResult {
    open spec fn obeys_from_spec() -> bool {
        true
    }

    open spec fn from_spec(v: IoError) -> Self {
        OperationResult::Io(v)
    }
}

impl From<ParseError> for OperationResult {
    fn from(err: ParseError) -> (r: Self) {
        OperationResult::Parse(err)
    }
}

impl vstd::std_specs::convert::FromSpecImpl<ParseError> for OperationResult {
    open spec fn obeys_from_spec() -> bool {
        true
    }

    open spec fn from_spec(v: ParseError) -> Self {
        OperationResult::Parse(v)
    }
}

impl From<Skip> for OperationResult {
    fn from(err: Skip) -> (r: Self) {
        OperationResult::Skip(err)
    }
}

impl vstd::std_specs::convert::FromSpecImpl<Skip> for OperationResult {
    open spec fn obeys_from_spec() -> bool {
        true
    }

    open spec fn from_spec(v: Skip) -> Self {
        OperationResult::Skip(v)
    }
}

impl From<PathError> for OperationResult {
    fn from(err: PathError) -> (r: Self) {
        OperationResult::Path(err)
    }
}

impl vstd::std_specs::convert::FromSpecImpl<PathError> for OperationResult {
    open spec fn obeys_from_spec() -> bool {
        true
    }

    open spec fn from_spec(v: PathError) -> Self {
        OperationResult::Path(v)
    }
}

impl OperationResult {
    /// What the wrapper renders as: a label naming the stage category that
    /// failed, then the wrapped kind's own rendering. The label is the sole
    /// difference from the leaf's rendering. The path label spells
    /// "manipulaiton" as the historical log lines do; downstream consumers
    /// match the exact string.
    pub open spec fn display_spec(&self) -> Seq<char> {
        match self {
            OperationResult::Io(e) => "IO error: "@ + e.display_spec(),
            OperationResult::Parse(e) => "Parse error: "@ + e.display_spec(),
            OperationResult::Skip(e) => "Skipped: "@ + e.display_spec(),
            OperationResult::Path(e) => "Path manipulaiton error: "@ + e.display_spec(),
        }
    }

    /// The wrapped kind's own cause lookup: the wrapper adds no chaining
    /// semantics of its own.
    pub open spec fn source_spec(&self) -> Option<Cause> {
        match self {
            OperationResult::Io(e) => e.source_spec(),
            OperationResult::Parse(e) => e.source_spec(),
            OperationResult::Skip(_) => None,
            OperationResult::Path(_) => None,
        }
    }

    /// Renders the failure for logging, prefixed with its stage label.
    pub fn display(&self) -> (r: String)
        ensures
            r@ == self.display_spec(),
    {
        match self {
            OperationResult::Io(e) => {
                let mut s = String::from_str("IO error: ");
                s.append(e.display().as_str());
                s
            },
            OperationResult::Parse(e) => {
                let mut s = String::from_str("Parse error: ");
                s.append(e.display().as_str());
                s
            },
            OperationResult::Skip(e) => {
                let mut s = String::from_str("Skipped: ");
                s.append(e.display().as_str());
                s
            },
            OperationResult::Path(e) => {
                let mut s = String::from_str("Path manipulaiton error: ");
                s.append(e.display().as_str());
                s
            },
        }
    }

    /// Cause lookup: transparent delegation to the wrapped kind.
    pub fn source(&self) -> (r: Option<&Cause>)
        ensures
            r matches Some(c) ==> self.source_spec() == Some(*c),
            r is None <==> self.source_spec() is None,
    {
        match self {
            OperationResult::Io(e) => e.source(),
            OperationResult::Parse(e) => e.source(),
            OperationResult::Skip(e) => e.source(),
            OperationResult::Path(e) => e.source(),
        }
    }
}

/// Law: a parse failure built from (directory, reason) renders as the exact
/// template, with directory and reason substituted verbatim.
pub proof fn lemma_parse_display_template(e: ParseError)
    ensures
        e.display_spec() == "Error at "@ + e.directory@ + ". "@ + e.info@ + ". Skipping."@,
{
}

/// Law: a skip decision built from (directory, reason) renders as the exact
/// template, with directory and reason substituted verbatim.
pub proof fn lemma_skip_display_template(e: Skip)
    ensures
        e.display_spec() == "Skipping "@ + e.directory@ + ". "@ + e.reason@,
{
}

/// Law: a path-manipulation failure built from (directory, reason) renders as
/// the exact template, with directory and reason substituted verbatim.
pub proof fn lemma_path_display_template(e: PathError)
    ensures
        e.display_spec() == "Skipping "@ + e.directory@ + ". "@ + e.reason@,
{
}

/// Law: an I/O failure renders as the native error's message, untransformed.
pub proof fn lemma_io_display_template(e: IoError)
    ensures
        e.display_spec() == e.message@,
{
}

/// Law: for every leaf kind, the wrapper renders as its stage label followed
/// by the leaf's own rendering; the label is the sole difference.
pub proof fn lemma_wrapper_display_is_label_then_leaf(w: OperationResult)
    ensures
        w matches OperationResult::Io(e) ==> w.display_spec() == "IO error: "@ + e.display_spec(),
        w matches OperationResult::Parse(e) ==> w.display_spec() == "Parse error: "@
            + e.display_spec(),
        w matches OperationResult::Skip(e) ==> w.display_spec() == "Skipped: "@ + e.display_spec(),
        w matches OperationResult::Path(e) ==> w.display_spec() == "Path manipulaiton error: "@
            + e.display_spec(),
{
}

/// Law: cause lookup on a skip decision or a path-manipulation failure,
/// wrapped or not, always comes back empty.
pub proof fn lemma_skip_and_path_never_chain(w: OperationResult)
    requires
        w is Skip || w is Path,
    ensures
        w.source_spec() is None,
{
}

/// Law: cause lookup on a wrapped direct I/O failure is empty whenever the
/// native error chains no cause of its own, since the wrapper delegates to
/// the native error's own lookup.
pub proof fn lemma_io_wrapper_cause_is_native_cause(e: IoError)
    ensures
        OperationResult::Io(e).source_spec() == e.source_spec(),
        e.source_spec() is None ==> OperationResult::Io(e).source_spec() is None,
{
}

/// Law: converting an I/O failure into the wrapper and matching it back
/// recovers the original value; no field is lost or mutated.
pub proof fn lemma_io_round_trip(e: IoError)
    ensures
        <OperationResult as vstd::std_specs::convert::FromSpec<IoError>>::from_spec(e)
            matches OperationResult::Io(back) && back == e,
{
}

/// Law: converting a parse failure into the wrapper and matching it back
/// recovers the original value; no field is lost or mutated.
pub proof fn lemma_parse_round_trip(e: ParseError)
    ensures
        <OperationResult as vstd::std_specs::convert::FromSpec<ParseError>>::from_spec(e)
            matches OperationResult::Parse(back) && back == e,
{
}

/// Law: converting a skip decision into the wrapper and matching it back
/// recovers the original value; no field is lost or mutated.
pub proof fn lemma_skip_round_trip(e: Skip)
    ensures
        <OperationResult as vstd::std_specs::convert::FromSpec<Skip>>::from_spec(e)
            matches OperationResult::Skip(back) && back == e,
{
}

/// Law: converting a path-manipulation failure into the wrapper and matching
/// it back recovers the original value; no field is lost or mutated.
pub proof fn lemma_path_round_trip(e: PathError)
    ensures
        <OperationResult as vstd::std_specs::convert::FromSpec<PathError>>::from_spec(e)
            matches OperationResult::Path(back) && back == e,
{
}

} // verus!
