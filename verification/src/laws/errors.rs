//! Laws about errors.
use crate::errors::{
    has_context, is_wrapped_os_error, joined_sources, texts, ErrorText, OsError,
    StandaloneWindowsError, WindowsCompatibleError, WrappedWindowsError, T_E_ERROR, T_E_REENTRANCY,
    T_E_UNINIT,
};
use vstd::prelude::*;

verus! {

/// Causes are written one behind the other, each with a colon and a blank before it.
pub proof fn causes_are_written_in_order(sources: Seq<Seq<char>>, source: Seq<char>)
    ensures
        joined_sources(Seq::<Seq<char>>::empty()) == Seq::<char>::empty(),
        joined_sources(sources.push(source)) == joined_sources(sources) + seq![':', ' '] + source,
{
    reveal_strlit(": ");
    assert(sources.push(source).drop_last() =~= sources);
    assert(": "@ =~= seq![':', ' ']);
}

/// An error that got a code has the message and the causes of the error inside, and that code.
pub proof fn wrapped_errors_say_what_is_inside(error: WrappedWindowsError, i: int)
    ensures
        ({
            let outer = WindowsCompatibleError::Wrapped(error);
            &&& outer.spec_code() == error.spec_code()
            &&& outer.spec_message() == error.inner().message@
            &&& outer.causes().len() == error.inner().sources@.len()
            &&& 0 <= i < outer.causes().len() ==> outer.causes()[i]
                == error.inner().sources@[i]@
        }),
{
}

/// An error of its own has its own message, and is caused by its source, if it has one, and by what
/// caused that.
pub proof fn standalone_errors_say_what_caused_them(error: StandaloneWindowsError, i: int)
    ensures
        ({
            let outer = WindowsCompatibleError::Standalone(error);
            &&& outer.spec_code() == error.spec_code()
            &&& outer.spec_message() == error.spec_message()
            &&& error.spec_source() is None ==> outer.causes().len() == 0
            &&& error.spec_source() matches Some(source) ==> {
                &&& outer.causes().len() == 1 + source.sources@.len()
                &&& outer.causes()[0] == source.message@
                &&& 0 <= i < source.sources@.len() ==> outer.causes()[i + 1]
                    == source.sources@[i]@
            }
        }),
{
}

/// Written short, an error is its message. Written in full, its causes follow.
pub proof fn errors_are_written_with_their_causes(error: WindowsCompatibleError)
    ensures
        error.written(false) == error.spec_message(),
        error.written(true) == error.spec_message() + joined_sources(error.causes()),
        error.causes().len() == 0 ==> error.written(true) == error.spec_message(),
{
    if error.causes().len() == 0 {
        assert(error.causes() =~= Seq::<Seq<char>>::empty());
        causes_are_written_in_order(Seq::empty(), Seq::empty());
        assert(error.written(true) =~= error.spec_message());
    }
}

/// An error of the operating system keeps its code, and is written as its message either way.
pub proof fn os_errors_are_written_as_their_message(
    error: WindowsCompatibleError,
    os: OsError,
    alternate: bool,
)
    requires
        is_wrapped_os_error(error, os),
    ensures
        error.written(alternate) == os.message@,
        error.spec_code() == os.code,
        error is Wrapped,
{
    errors_are_written_with_their_causes(error);
}

/// An error with context is written as the context, a colon, and the error inside with its own
/// causes behind it. Its code is that of the error inside.
pub proof fn context_is_written_before_the_error(
    error: WindowsCompatibleError,
    context: Seq<char>,
    code: i32,
    message: Seq<char>,
)
    requires
        has_context(error, context, code, message, Seq::empty()),
    ensures
        error.written(true) == context + seq![':', ' '] + message,
        error.written(false) == context,
        error.spec_code() == code,
        error is Standalone,
{
    let none = Seq::<Seq<char>>::empty();
    causes_are_written_in_order(none, message);
    assert(error.causes() =~= none.push(message));
    assert(error.written(true) =~= context + seq![':', ' '] + message);
}

/// The texts of a list are those of its entries.
pub proof fn texts_are_those_of_the_entries(text: ErrorText, i: int)
    requires
        0 <= i < text.sources@.len(),
    ensures
        texts(text.sources@).len() == text.sources@.len(),
        texts(text.sources@)[i] == text.sources@[i]@,
{
}

/// The codes of this program are failures of the facility that is free for such use, with numbers
/// of their own.
pub proof fn own_codes_are_apart()
    ensures
        T_E_UNINIT + 0x1_0000_0000 == 0x8004_2222,
        T_E_ERROR + 0x1_0000_0000 == 0x8004_2223,
        T_E_REENTRANCY + 0x1_0000_0000 == 0x8004_2224,
{
}

} // verus!
