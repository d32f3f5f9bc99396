use veles_casper::error::{i32_from, result_from, ApiError, UniversalError};

#[test]
fn test_discriminants() {
    assert_eq!(UniversalError::Panic.discriminant(), 56900);
    assert_eq!(UniversalError::InvalidContext.discriminant(), 56901);
    assert_eq!(UniversalError::URefAlreadyInitialized.discriminant(), 56902);
    assert_eq!(
        UniversalError::Other(ApiError::User(12345)).discriminant(),
        0
    );
}

#[test]
fn test_conversion() {
    let error = UniversalError::InvalidContext;
    let api_error: ApiError = error.into_api_error();
    assert_eq!(api_error, ApiError::User(56901));
}

#[test]
fn universal_errors_wrap_and_unwrap() {
    assert_eq!(
        UniversalError::from_api_error(ApiError::MissingKey),
        UniversalError::Other(ApiError::MissingKey)
    );
    assert_eq!(
        UniversalError::Other(ApiError::MissingKey).into_api_error(),
        ApiError::MissingKey
    );
    assert_eq!(UniversalError::Panic.into_api_error(), ApiError::User(56900));
    assert_eq!(
        UniversalError::URefAlreadyInitialized.into_api_error(),
        ApiError::User(56902)
    );
}

fn named() -> Vec<(ApiError, casper_types::ApiError)> {
    vec![
        (ApiError::MissingArgument, casper_types::ApiError::MissingArgument),
        (ApiError::InvalidArgument, casper_types::ApiError::InvalidArgument),
        (ApiError::Deserialize, casper_types::ApiError::Deserialize),
        (ApiError::ValueNotFound, casper_types::ApiError::ValueNotFound),
        (ApiError::UnexpectedKeyVariant, casper_types::ApiError::UnexpectedKeyVariant),
        (ApiError::EarlyEndOfStream, casper_types::ApiError::EarlyEndOfStream),
        (ApiError::Formatting, casper_types::ApiError::Formatting),
        (ApiError::LeftOverBytes, casper_types::ApiError::LeftOverBytes),
        (ApiError::OutOfMemory, casper_types::ApiError::OutOfMemory),
        (ApiError::MissingKey, casper_types::ApiError::MissingKey),
        (ApiError::Unhandled, casper_types::ApiError::Unhandled),
        (ApiError::BufferTooSmall, casper_types::ApiError::BufferTooSmall),
        (ApiError::HostBufferEmpty, casper_types::ApiError::HostBufferEmpty),
        (ApiError::HostBufferFull, casper_types::ApiError::HostBufferFull),
        (
            ApiError::DictionaryItemKeyExceedsLength,
            casper_types::ApiError::DictionaryItemKeyExceedsLength,
        ),
        (
            ApiError::InvalidCallerInfoRequest,
            casper_types::ApiError::InvalidCallerInfoRequest,
        ),
        (ApiError::User(0), casper_types::ApiError::User(0)),
        (ApiError::User(12345), casper_types::ApiError::User(12345)),
        (ApiError::User(u16::MAX), casper_types::ApiError::User(u16::MAX)),
    ]
}

#[test]
fn statuses_are_those_of_the_node() {
    for (ours, theirs) in named() {
        let status = u32::from(theirs);
        assert_eq!(ours.status() as u32, status);
        assert_eq!(ApiError::from_status(status as i32), ours);
        assert_eq!(i32_from(Err(ours)), casper_types::api_error::i32_from(Err::<(), _>(theirs)));
        assert_eq!(result_from(status as i32), Err(ours));
    }
}

#[test]
fn exact_statuses() {
    assert_eq!(ApiError::MissingArgument.status(), 2);
    assert_eq!(ApiError::InvalidArgument.status(), 3);
    assert_eq!(ApiError::Deserialize.status(), 4);
    assert_eq!(ApiError::ValueNotFound.status(), 6);
    assert_eq!(ApiError::UnexpectedKeyVariant.status(), 9);
    assert_eq!(ApiError::EarlyEndOfStream.status(), 17);
    assert_eq!(ApiError::Formatting.status(), 18);
    assert_eq!(ApiError::LeftOverBytes.status(), 19);
    assert_eq!(ApiError::OutOfMemory.status(), 20);
    assert_eq!(ApiError::MissingKey.status(), 24);
    assert_eq!(ApiError::Unhandled.status(), 31);
    assert_eq!(ApiError::BufferTooSmall.status(), 32);
    assert_eq!(ApiError::HostBufferEmpty.status(), 33);
    assert_eq!(ApiError::HostBufferFull.status(), 34);
    assert_eq!(ApiError::DictionaryItemKeyExceedsLength.status(), 36);
    assert_eq!(ApiError::InvalidCallerInfoRequest.status(), 50);
    assert_eq!(ApiError::DictionaryNotFound.status(), -1);
    assert_eq!(ApiError::User(7).status(), 65543);
    assert_eq!(ApiError::User(u16::MAX).status(), 131071);
    assert_eq!(ApiError::Status(5).status(), 5);
}

#[test]
fn every_status_comes_back() {
    for status in -3..140_000i32 {
        assert_eq!(ApiError::from_status(status).status(), status);
    }
    assert_eq!(ApiError::from_status(5), ApiError::Status(5));
    assert_eq!(ApiError::from_status(-1), ApiError::DictionaryNotFound);
    assert_eq!(ApiError::from_status(65536), ApiError::User(0));
    assert_eq!(ApiError::from_status(131071), ApiError::User(u16::MAX));
    assert_eq!(ApiError::from_status(131072), ApiError::Status(131072));
    assert_eq!(ApiError::from_status(i32::MIN), ApiError::Status(i32::MIN));
}

#[test]
fn zero_is_success() {
    assert_eq!(result_from(0), Ok(()));
    assert_eq!(i32_from(Ok(())), 0);
    assert_eq!(result_from(24), Err(ApiError::MissingKey));
    assert_eq!(i32_from(Err(ApiError::MissingKey)), 24);
    assert_eq!(result_from(-1), Err(ApiError::DictionaryNotFound));
}
