use vstd::prelude::*;
use vstd::string::StringExecFns;

verus! {

/// `anyhow::Error`, carried as an opaque value.
#[verifier::external_type_specification]
#[verifier::external_body]
pub struct ExAnyhowError(anyhow::Error);

/// `sqlx::Error`, carried as an opaque value.
#[verifier::external_type_specification]
#[verifier::external_body]
pub struct ExSqlxError(sqlx::Error);

/// Relies on `ToString::to_string` of `anyhow::Error`, which writes the
/// wrapped error's `Display` message.
#[verifier::external_body]
fn anyhow_text(e: &anyhow::Error) -> String {
    e.to_string()
}

/// The message of a failed lookup.
pub open spec fn not_found_text(method: Seq<char>, entity: Seq<char>, id: Seq<char>) -> Seq<char> {
    "cannot find `"@ + id + ":"@ + entity + "` in the following "@ + method + "."@
}

/// The message of a value that could not be read.
pub open spec fn convert_text(msg: Seq<char>) -> Seq<char> {
    "this value illegal. "@ + msg
}

fn not_found_message(method: &str, entity: &str, id: &str) -> (r: String)
    ensures
        r@ == not_found_text(method@, entity@, id@),
{
    let mut text = String::from_str("cannot find `");
    text.append(id);
    text.append(":");
    text.append(entity);
    text.append("` in the following ");
    text.append(method);
    text.append(".");
    text
}

fn convert_message(msg: &str) -> (r: String)
    ensures
        r@ == convert_text(msg@),
{
    let mut text = String::from_str("this value illegal. ");
    text.append(msg);
    text
}

/// Relies on `anyhow::Error::new`, which boxes a store failure as an opaque
/// error. Nothing about the result is stated.
#[verifier::external_body]
fn wrap_store_error(e: sqlx::Error) -> anyhow::Error {
    anyhow::Error::new(e)
}

/// A failure in the domain: the vocabulary of entities and repositories.
#[derive(Debug)]
pub enum KernelError {
    /// `method` looked for the `entity` written `id`, and found nothing.
    NotFound { method: &'static str, entity: &'static str, id: String },
    /// A value could not be read or is not allowed.
    Convert(String),
    /// The persistence adaptor failed.
    Driver(anyhow::Error),
    /// Some other outside service failed.
    External(anyhow::Error),
}

impl KernelError {
    /// The message that describes this error; a wrapped error speaks for
    /// itself.
    pub fn message(&self) -> (r: String)
        ensures
            self matches KernelError::NotFound { method, entity, id } ==> r@ == not_found_text(
                method@,
                entity@,
                id@,
            ),
            self matches KernelError::Convert(msg) ==> r@ == convert_text(msg@),
    {
        match self {
            KernelError::NotFound { method, entity, id } => not_found_message(
                method,
                entity,
                id.as_str(),
            ),
            KernelError::Convert(msg) => convert_message(msg.as_str()),
            KernelError::Driver(err) => anyhow_text(err),
            KernelError::External(err) => anyhow_text(err),
        }
    }
}

/// A failure at the use-case boundary. Storage failures show here only as
/// `External`: callers above this layer never see the driver as such.
#[derive(Debug)]
pub enum ApplicationError {
    /// `method` looked for the `entity` written `id`, and found nothing.
    NotFound { method: &'static str, entity: &'static str, id: String },
    /// A value could not be read or is not allowed.
    Convert(String),
    /// Something outside the core failed.
    External(anyhow::Error),
}

impl ApplicationError {
    /// The message that describes this error; a wrapped error speaks for
    /// itself.
    pub fn message(&self) -> (r: String)
        ensures
            self matches ApplicationError::NotFound { method, entity, id } ==> r@ == not_found_text(
                method@,
                entity@,
                id@,
            ),
            self matches ApplicationError::Convert(msg) ==> r@ == convert_text(msg@),
    {
        match self {
            ApplicationError::NotFound { method, entity, id } => not_found_message(
                method,
                entity,
                id.as_str(),
            ),
            ApplicationError::Convert(msg) => convert_message(msg.as_str()),
            ApplicationError::External(err) => anyhow_text(err),
        }
    }
}

/// The application error that a domain error becomes: every kind maps to
/// exactly one, and `Driver` folds into `External`.
pub open spec fn application_error_of(e: KernelError) -> ApplicationError {
    match e {
        KernelError::NotFound { method, entity, id } => ApplicationError::NotFound {
            method,
            entity,
            id,
        },
        KernelError::Convert(msg) => ApplicationError::Convert(msg),
        KernelError::External(err) => ApplicationError::External(err),
        KernelError::Driver(err) => ApplicationError::External(err),
    }
}

impl From<KernelError> for ApplicationError {
    fn from(kernel: KernelError) -> (r: ApplicationError)
        ensures
            r == application_error_of(kernel),
    {
        match kernel {
            KernelError::NotFound { method, entity, id } => ApplicationError::NotFound {
                method,
                entity,
                id,
            },
            KernelError::Convert(msg) => ApplicationError::Convert(msg),
            KernelError::External(err) => ApplicationError::External(err),
            KernelError::Driver(err) => ApplicationError::External(err),
        }
    }
}

impl vstd::std_specs::convert::FromSpecImpl<KernelError> for ApplicationError {
    open spec fn obeys_from_spec() -> bool {
        true
    }

    open spec fn from_spec(kernel: KernelError) -> ApplicationError {
        application_error_of(kernel)
    }
}

/// A failure inside the persistence adaptor, in the store's own terms.
#[derive(Debug)]
pub enum DriverError {
    SqlX(sqlx::Error),
}

impl From<sqlx::Error> for DriverError {
    fn from(e: sqlx::Error) -> (r: DriverError)
        ensures
            r == DriverError::SqlX(e),
    {
        DriverError::SqlX(e)
    }
}

impl vstd::std_specs::convert::FromSpecImpl<sqlx::Error> for DriverError {
    open spec fn obeys_from_spec() -> bool {
        true
    }

    open spec fn from_spec(e: sqlx::Error) -> DriverError {
        DriverError::SqlX(e)
    }
}

impl From<DriverError> for KernelError {
    /// A storage failure always reaches the domain as `Driver`.
    fn from(driver: DriverError) -> (r: KernelError)
        ensures
            r is Driver,
    {
        match driver {
            DriverError::SqlX(e) => KernelError::Driver(wrap_store_error(e)),
        }
    }
}

/// The wrapped error is opaque: the conversion is stated by the `ensures` of
/// `from` above, which fixes the kind.
impl vstd::std_specs::convert::FromSpecImpl<DriverError> for KernelError {
    open spec fn obeys_from_spec() -> bool {
        false
    }

    open spec fn from_spec(driver: DriverError) -> KernelError {
        KernelError::Driver(arbitrary())
    }
}

/// Converting a domain error never yields anything but `NotFound`, `Convert`
/// or `External`, keeps the kind of the first three, and turns `Driver` into
/// `External` carrying the same wrapped error.
pub proof fn lemma_error_mapping_total(e: KernelError)
    ensures
        e is NotFound <==> application_error_of(e) is NotFound,
        e is Convert <==> application_error_of(e) is Convert,
        (e is Driver || e is External) <==> application_error_of(e) is External,
        e matches KernelError::NotFound { method, entity, id } ==> application_error_of(e)
            == (ApplicationError::NotFound { method, entity, id }),
        e matches KernelError::Convert(msg) ==> application_error_of(e)
            == ApplicationError::Convert(msg),
        e matches KernelError::Driver(err) ==> application_error_of(e)
            == ApplicationError::External(err),
        e matches KernelError::External(err) ==> application_error_of(e)
            == ApplicationError::External(err),
{
}

} // verus!
