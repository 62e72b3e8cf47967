use vstd::prelude::*;

use aws_sdk_dynamodb::error::SdkError;
use aws_sdk_dynamodb::operation::put_item::PutItemError;
use aws_sdk_dynamodb::operation::query::QueryError;
use aws_smithy_runtime_api::http::Response;
use aws_smithy_types::body::SdkBody;

use crate::model::RateLimitSettings;

verus! {

/// The error of a failed request, as the AWS SDK reports it; carried through
/// unopened.
#[verifier::external_type_specification]
#[verifier::external_body]
#[verifier::reject_recursive_types(E)]
#[verifier::reject_recursive_types(R)]
pub struct ExSdkError<E, R>(SdkError<E, R>);

/// The error of a DynamoDB query; carried through unopened.
#[verifier::external_type_specification]
#[verifier::external_body]
pub struct ExQueryError(QueryError);

/// The error of a DynamoDB put; carried through unopened.
#[verifier::external_type_specification]
#[verifier::external_body]
pub struct ExPutItemError(PutItemError);

/// An HTTP response of the AWS runtime; carried through unopened.
#[verifier::external_type_specification]
#[verifier::external_body]
#[verifier::reject_recursive_types(B)]
pub struct ExResponse<B>(Response<B>);

/// An HTTP body of the AWS runtime; carried through unopened.
#[verifier::external_type_specification]
#[verifier::external_body]
pub struct ExSdkBody(SdkBody);

/// The error of encoding or decoding a DynamoDB item; carried through
/// unopened.
#[verifier::external_type_specification]
#[verifier::external_body]
pub struct ExSerdeDynamoError(serde_dynamo::Error);

/// Why a request to the store failed.
#[derive(Debug)]
pub enum TokenBucketError {
    /// Fetching the state and settings failed.
    DynamoGet(SdkError<QueryError, Response<SdkBody>>),
    /// Publishing an admitted state failed.
    DynamoPut(SdkError<PutItemError, Response<SdkBody>>),
    /// A record could not be encoded or decoded.
    SerdeError(serde_dynamo::Error),
    /// Settings with a zero refill interval were given or found.
    InvalidSettings,
}

/// The rate limiter: a store client and the settings used for identifiers
/// that have none stored.
pub struct TokenBucket<T> {
    client: T,
    pub default_settings: RateLimitSettings,
}

impl<T> TokenBucket<T> {
    /// The limiter is usable when its default settings are.
    pub open spec fn wf(&self) -> bool {
        self.defaults().wf()
    }

    /// The settings used for identifiers that have none stored.
    pub closed spec fn defaults(&self) -> RateLimitSettings {
        self.default_settings
    }

    /// The store client this limiter talks to.
    pub closed spec fn client_view(&self) -> T {
        self.client
    }

    /// Builds a limiter over `client`, refusing default settings with a zero
    /// refill interval.
    pub fn new(client: T, default_settings: RateLimitSettings) -> (r: Result<Self, TokenBucketError>)
        ensures
            r is Err <==> !default_settings.wf(),
            r matches Err(e) ==> e is InvalidSettings,
            r matches Ok(b) ==> b.wf() && b.defaults() == default_settings && b.client_view()
                == client,
    {
        if default_settings.refill_interval == 0 {
            Err(TokenBucketError::InvalidSettings)
        } else {
            Ok(TokenBucket { client, default_settings })
        }
    }

    /// The store client this limiter talks to.
    pub fn client(&self) -> (r: &T)
        ensures
            *r == self.client_view(),
    {
        &self.client
    }
}

} // verus!
