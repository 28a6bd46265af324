//! Errors that carry a numeric code of the operating system, and the context that is put around
//! them on their way up.
use vstd::prelude::*;

verus! {

/// The code of this program's errors about objects that have not been set up: `0x80042222`.
pub const T_E_UNINIT: i32 = -0x7FFB_DDDE;

/// The code of this program's general errors: `0x80042223`.
pub const T_E_ERROR: i32 = -0x7FFB_DDDD;

/// The code of this program's errors about code that was entered twice: `0x80042224`.
pub const T_E_REENTRANCY: i32 = -0x7FFB_DDDC;

/// An error of the operating system.
#[derive(Debug)]
pub struct OsError {
    pub code: i32,
    pub message: String,
}

/// What an error says: its own message, and those of the errors that caused it, the nearest first.
#[derive(Debug)]
pub struct ErrorText {
    pub message: String,
    pub sources: Vec<String>,
}

/// The texts in a list.
pub open spec fn texts(list: Seq<String>) -> Seq<Seq<char>> {
    Seq::new(list.len(), |i: int| list[i]@)
}

/// An error that got a code.
#[derive(Debug)]
pub struct WrappedWindowsError {
    code: i32,
    inner: ErrorText,
}

impl WrappedWindowsError {
    pub closed spec fn spec_code(&self) -> i32 {
        self.code
    }

    pub closed spec fn inner(&self) -> ErrorText {
        self.inner
    }

    pub fn new(code: i32, inner: ErrorText) -> (error: Self)
        ensures
            error.spec_code() == code,
            error.inner() == inner,
    {
        WrappedWindowsError { code, inner }
    }

    pub fn code(&self) -> (code: i32)
        ensures
            code == self.spec_code(),
    {
        self.code
    }

    pub fn message(&self) -> (message: &str)
        ensures
            message@ == self.inner().message@,
    {
        self.inner.message.as_str()
    }
}

/// An error of its own, which may name the error that caused it.
#[derive(Debug)]
pub struct StandaloneWindowsError {
    code: i32,
    message: String,
    source: Option<ErrorText>,
}

impl StandaloneWindowsError {
    pub closed spec fn spec_code(&self) -> i32 {
        self.code
    }

    pub closed spec fn spec_message(&self) -> Seq<char> {
        self.message@
    }

    pub closed spec fn spec_source(&self) -> Option<ErrorText> {
        self.source
    }

    pub fn new(code: i32, message: String) -> (error: Self)
        ensures
            error.spec_code() == code,
            error.spec_message() == message@,
            error.spec_source() is None,
    {
        StandaloneWindowsError { code, message, source: None }
    }

    pub fn with_source(code: i32, message: String, source: ErrorText) -> (error: Self)
        ensures
            error.spec_code() == code,
            error.spec_message() == message@,
            error.spec_source() == Some(source),
    {
        StandaloneWindowsError { code, message, source: Some(source) }
    }

    pub fn code(&self) -> (code: i32)
        ensures
            code == self.spec_code(),
    {
        self.code
    }

    pub fn message(&self) -> (message: &str)
        ensures
            message@ == self.spec_message(),
    {
        self.message.as_str()
    }
}

/// An error with a code of the operating system.
#[derive(Debug)]
pub enum WindowsCompatibleError {
    Wrapped(WrappedWindowsError),
    Standalone(StandaloneWindowsError),
}

pub type WindowsCompatibleResult<T> = Result<T, WindowsCompatibleError>;

/// What follows a message: every cause, with a colon before it.
pub open spec fn joined_sources(sources: Seq<Seq<char>>) -> Seq<char>
    decreases sources.len(),
{
    if sources.len() == 0 {
        Seq::empty()
    } else {
        joined_sources(sources.drop_last()) + ": "@ + sources.last()
    }
}

impl WindowsCompatibleError {
    pub open spec fn spec_code(&self) -> i32 {
        match *self {
            WindowsCompatibleError::Wrapped(error) => error.spec_code(),
            WindowsCompatibleError::Standalone(error) => error.spec_code(),
        }
    }

    pub open spec fn spec_message(&self) -> Seq<char> {
        match *self {
            WindowsCompatibleError::Wrapped(error) => error.inner().message@,
            WindowsCompatibleError::Standalone(error) => error.spec_message(),
        }
    }

    /// The messages of the errors that caused this one, the nearest first.
    pub open spec fn causes(&self) -> Seq<Seq<char>> {
        match *self {
            WindowsCompatibleError::Wrapped(error) => texts(error.inner().sources@),
            WindowsCompatibleError::Standalone(error) => match error.spec_source() {
                Some(source) => seq![source.message@] + texts(source.sources@),
                None => Seq::empty(),
            },
        }
    }

    /// How the error is written: its message, and with `alternate` all its causes too.
    pub open spec fn written(&self, alternate: bool) -> Seq<char> {
        if alternate {
            self.spec_message() + joined_sources(self.causes())
        } else {
            self.spec_message()
        }
    }

    pub fn code(&self) -> (code: i32)
        ensures
            code == self.spec_code(),
    {
        match self {
            WindowsCompatibleError::Wrapped(error) => error.code(),
            WindowsCompatibleError::Standalone(error) => error.code(),
        }
    }

    pub fn message(&self) -> (message: &str)
        ensures
            message@ == self.spec_message(),
    {
        match self {
            WindowsCompatibleError::Wrapped(error) => error.message(),
            WindowsCompatibleError::Standalone(error) => error.message(),
        }
    }

    /// The messages of the errors that caused this one, the nearest first.
    pub fn source(&self) -> (sources: Vec<&String>)
        ensures
            sources@.len() == self.causes().len(),
            forall|i: int| 0 <= i < sources@.len() ==> (#[trigger] sources@[i])@ == self.causes()[i],
    {
        let mut sources: Vec<&String> = Vec::new();
        let below: &Vec<String> = match self {
            WindowsCompatibleError::Wrapped(error) => &error.inner.sources,
            WindowsCompatibleError::Standalone(error) => match &error.source {
                Some(source) => {
                    sources.push(&source.message);
                    &source.sources
                },
                None => return sources,
            },
        };
        let ghost first = sources@.len();
        assert(self.causes().len() == first + below@.len());
        assert(forall|i: int|
            0 <= i < below@.len() ==> #[trigger] below@[i]@ == self.causes()[first + i]);
        let mut idx: usize = 0;
        while idx < below.len()
            invariant
                idx <= below@.len(),
                sources@.len() == first + idx,
                self.causes().len() == first + below@.len(),
                forall|i: int|
                    0 <= i < below@.len() ==> #[trigger] below@[i]@ == self.causes()[first + i],
                forall|i: int|
                    0 <= i < sources@.len() ==> (#[trigger] sources@[i])@ == self.causes()[i],
            decreases below@.len() - idx,
        {
            assert(below@[idx as int]@ == self.causes()[first + idx]);
            sources.push(&below[idx]);
            idx = idx + 1;
        }
        sources
    }

    /// Writes the error: its message, and with `alternate` all its causes too.
    pub fn to_text(&self, alternate: bool) -> (text: String)
        ensures
            text@ == self.written(alternate),
    {
        let mut text = self.message().to_owned();
        if alternate {
            let sources = self.source();
            let mut idx: usize = 0;
            assert(self.causes().take(0) =~= Seq::empty());
            assert(text@ =~= self.spec_message() + joined_sources(self.causes().take(0)));
            while idx < sources.len()
                invariant
                    idx <= sources@.len(),
                    sources@.len() == self.causes().len(),
                    forall|i: int|
                        0 <= i < sources@.len() ==> (#[trigger] sources@[i])@ == self.causes()[i],
                    text@ == self.spec_message() + joined_sources(self.causes().take(idx as int)),
                decreases sources@.len() - idx,
            {
                assert(self.causes().take(idx + 1).drop_last() =~= self.causes().take(idx as int));
                let ghost before = text@;
                text.append(": ");
                text.append(sources[idx].as_str());
                assert(text@ =~= self.spec_message() + joined_sources(
                    self.causes().take(idx + 1),
                ));
                idx = idx + 1;
            }
            assert(self.causes().take(self.causes().len() as int) =~= self.causes());
        }
        text
    }

    /// What the error says, without its code.
    fn into_error_text(self) -> (text: ErrorText)
        ensures
            text.message@ == self.spec_message(),
            texts(text.sources@) == self.causes(),
    {
        match self {
            WindowsCompatibleError::Wrapped(error) => error.inner,
            WindowsCompatibleError::Standalone(error) => {
                let ghost causes = self.causes();
                let mut sources: Vec<String> = Vec::new();
                match error.source {
                    Some(source) => {
                        sources.push(source.message);
                        let mut below = source.sources;
                        sources.append(&mut below);
                    },
                    None => {},
                }
                assert(texts(sources@) =~= causes);
                ErrorText { message: error.message, sources }
            },
        }
    }
}

/// The error of the operating system with its code, and no cause.
pub open spec fn is_wrapped_os_error(error: WindowsCompatibleError, os: OsError) -> bool {
    &&& error is Wrapped
    &&& error.spec_code() == os.code
    &&& error.spec_message() == os.message@
    &&& error.causes() == Seq::<Seq<char>>::empty()
}

/// Turns an error of the operating system into one that can get context.
pub fn from_os_error(value: OsError) -> (error: WindowsCompatibleError)
    ensures
        is_wrapped_os_error(error, value),
{
    let error = WindowsCompatibleError::Wrapped(
        WrappedWindowsError::new(
            value.code,
            ErrorText { message: value.message, sources: Vec::new() },
        ),
    );
    assert(error.causes() =~= Seq::<Seq<char>>::empty());
    error
}

/// Gives an error a code.
pub trait ToWindowsResult<T>: Sized {
    /// What went well.
    spec fn outcome(self) -> Option<T>;

    /// What went wrong.
    spec fn failure(self) -> ErrorText;

    fn to_windows_result(self, hresult: i32) -> (result: WindowsCompatibleResult<T>)
        ensures
            match self.outcome() {
                Some(value) => result == Ok::<T, WindowsCompatibleError>(value),
                None => result matches Err(error) && {
                    &&& error matches WindowsCompatibleError::Wrapped(wrapped)
                    &&& wrapped.inner() == self.failure()
                    &&& wrapped.spec_code() == hresult
                },
            },
    ;
}

impl<T> ToWindowsResult<T> for Result<T, ErrorText> {
    open spec fn outcome(self) -> Option<T> {
        match self {
            Ok(value) => Some(value),
            Err(_) => None,
        }
    }

    open spec fn failure(self) -> ErrorText {
        self->Err_0
    }

    fn to_windows_result(self, hresult: i32) -> (result: WindowsCompatibleResult<T>) {
        match self {
            Ok(value) => Ok(value),
            Err(error) => Err(
                WindowsCompatibleError::Wrapped(WrappedWindowsError::new(hresult, error)),
            ),
        }
    }
}

/// Whether an error is another one with context around it: it has the message of the context and
/// the code of the other, and its causes are the other and the other's causes.
pub open spec fn has_context(
    error: WindowsCompatibleError,
    context: Seq<char>,
    code: i32,
    message: Seq<char>,
    causes: Seq<Seq<char>>,
) -> bool {
    &&& error is Standalone
    &&& error.spec_code() == code
    &&& error.spec_message() == context
    &&& error.causes() == seq![message] + causes
}

/// Puts context around an error, and keeps its code.
pub trait WindowsContext<T>: Sized {
    /// What went well.
    spec fn outcome(self) -> Option<T>;

    /// The code of what went wrong.
    spec fn failure_code(self) -> i32;

    /// The message of what went wrong.
    spec fn failure_message(self) -> Seq<char>;

    /// The causes of what went wrong.
    spec fn failure_causes(self) -> Seq<Seq<char>>;

    fn windows_context(self, context: String) -> (result: WindowsCompatibleResult<T>)
        ensures
            match self.outcome() {
                Some(value) => result == Ok::<T, WindowsCompatibleError>(value),
                None => result matches Err(error) && has_context(
                    error,
                    context@,
                    self.failure_code(),
                    self.failure_message(),
                    self.failure_causes(),
                ),
            },
    ;

    fn with_windows_context<F: FnOnce() -> String>(self, context: F) -> (result:
        WindowsCompatibleResult<T>)
        requires
            self.outcome() is None ==> context.requires(()),
        ensures
            match self.outcome() {
                Some(value) => result == Ok::<T, WindowsCompatibleError>(value),
                None => result matches Err(error) && exists|text: String|
                    {
                        &&& context.ensures((), text)
                        &&& #[trigger] has_context(
                            error,
                            text@,
                            self.failure_code(),
                            self.failure_message(),
                            self.failure_causes(),
                        )
                    },
            },
    ;
}

fn add_context(
    code: i32,
    context: String,
    source: ErrorText,
) -> (error: WindowsCompatibleError)
    ensures
        has_context(error, context@, code, source.message@, texts(source.sources@)),
{
    WindowsCompatibleError::Standalone(
        StandaloneWindowsError::with_source(code, context, source),
    )
}

impl<T> WindowsContext<T> for Result<T, OsError> {
    open spec fn outcome(self) -> Option<T> {
        match self {
            Ok(value) => Some(value),
            Err(_) => None,
        }
    }

    open spec fn failure_code(self) -> i32 {
        self->Err_0.code
    }

    open spec fn failure_message(self) -> Seq<char> {
        self->Err_0.message@
    }

    open spec fn failure_causes(self) -> Seq<Seq<char>> {
        Seq::empty()
    }

    fn windows_context(self, context: String) -> (result: WindowsCompatibleResult<T>) {
        match self {
            Ok(value) => Ok(value),
            Err(error) => {
                let sources: Vec<String> = Vec::new();
                assert(texts(sources@) =~= Seq::<Seq<char>>::empty());
                Err(
                    add_context(error.code, context, ErrorText { message: error.message, sources }),
                )
            },
        }
    }

    fn with_windows_context<F: FnOnce() -> String>(self, context: F) -> (result:
        WindowsCompatibleResult<T>) {
        match self {
            Ok(value) => Ok(value),
            Err(error) => {
                let sources: Vec<String> = Vec::new();
                assert(texts(sources@) =~= Seq::<Seq<char>>::empty());
                let text = context();
                let ghost given = text;
                let with_context = add_context(
                    error.code,
                    text,
                    ErrorText { message: error.message, sources },
                );
                assert(has_context(
                    with_context,
                    given@,
                    self.failure_code(),
                    self.failure_message(),
                    self.failure_causes(),
                ));
                Err(with_context)
            },
        }
    }
}

impl<T> WindowsContext<T> for Result<T, WindowsCompatibleError> {
    open spec fn outcome(self) -> Option<T> {
        match self {
            Ok(value) => Some(value),
            Err(_) => None,
        }
    }

    open spec fn failure_code(self) -> i32 {
        self->Err_0.spec_code()
    }

    open spec fn failure_message(self) -> Seq<char> {
        self->Err_0.spec_message()
    }

    open spec fn failure_causes(self) -> Seq<Seq<char>> {
        self->Err_0.causes()
    }

    fn windows_context(self, context: String) -> (result: WindowsCompatibleResult<T>) {
        match self {
            Ok(value) => Ok(value),
            Err(error) => {
                let code: i32 = error.code();
                Err(add_context(code, context, error.into_error_text()))
            },
        }
    }

    fn with_windows_context<F: FnOnce() -> String>(self, context: F) -> (result:
        WindowsCompatibleResult<T>) {
        match self {
            Ok(value) => Ok(value),
            Err(error) => {
                let code: i32 = error.code();
                let text = context();
                let ghost given = text;
                let with_context = add_context(code, text, error.into_error_text());
                assert(has_context(
                    with_context,
                    given@,
                    self.failure_code(),
                    self.failure_message(),
                    self.failure_causes(),
                ));
                Err(with_context)
            },
        }
    }
}

/// The line that an unwanted outcome leaves in the log.
pub trait LogIfErr {
    /// What there is to log.
    spec fn log_line(&self) -> Option<Seq<char>>;

    fn log_if_err(&self) -> (line: Option<String>)
        ensures
            line is Some <==> self.log_line() is Some,
            line matches Some(text) ==> self.log_line() == Some(text@),
    ;
}

impl LogIfErr for Result<(), WindowsCompatibleError> {
    open spec fn log_line(&self) -> Option<Seq<char>> {
        match *self {
            Ok(_) => None,
            Err(error) => Some(error.written(true)),
        }
    }

    fn log_if_err(&self) -> (line: Option<String>) {
        match self {
            Ok(_) => None,
            Err(error) => Some(error.to_text(true)),
        }
    }
}

/// Context stands in front: an error with context is written as that context, a colon, and the
/// error as it was written before. Its code does not change.
pub proof fn context_stands_in_front(
    error: WindowsCompatibleError,
    wrapped: WindowsCompatibleError,
    context: Seq<char>,
)
    requires
        has_context(
            wrapped,
            context,
            error.spec_code(),
            error.spec_message(),
            error.causes(),
        ),
    ensures
        wrapped.written(true) == context + ": "@ + error.written(true),
        wrapped.written(false) == context,
        wrapped.spec_code() == error.spec_code(),
{
    lemma_join_front(error.spec_message(), error.causes());
    assert(wrapped.written(true) =~= context + ": "@ + error.written(true));
}

proof fn lemma_join_one(sources: Seq<Seq<char>>)
    requires
        sources.len() > 0,
    ensures
        joined_sources(sources) == joined_sources(sources.drop_last()) + ": "@ + sources.last(),
{
}

proof fn lemma_join_front(first: Seq<char>, rest: Seq<Seq<char>>)
    ensures
        joined_sources(seq![first] + rest) == ": "@ + first + joined_sources(rest),
    decreases rest.len(),
{
    let all = seq![first] + rest;
    lemma_join_one(all);
    if rest.len() == 0 {
        let none = Seq::<Seq<char>>::empty();
        assert(joined_sources(none) == Seq::<char>::empty());
        assert(rest =~= none);
        assert(joined_sources(rest) == Seq::<char>::empty());
        assert(all.drop_last() =~= none);
        assert(all.last() == first);
        assert(joined_sources(all) == Seq::<char>::empty() + ": "@ + first);
        assert(Seq::<char>::empty() + ": "@ + first =~= ": "@ + first + Seq::<char>::empty());
    } else {
        lemma_join_one(rest);
        lemma_join_front(first, rest.drop_last());
        assert(all.drop_last() =~= seq![first] + rest.drop_last());
        assert(all.last() == rest.last());
        let before = joined_sources(rest.drop_last());
        assert(joined_sources(all) == ": "@ + first + before + ": "@ + rest.last());
        assert(joined_sources(rest) == before + ": "@ + rest.last());
        assert(": "@ + first + before + ": "@ + rest.last() =~= ": "@ + first + (before + ": "@
            + rest.last()));
    }
}

} // verus!
