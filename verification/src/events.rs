//! The event-shape data types: the JSON payload schemas of the AWS event
//! sources whose fields this crate can carry as plain values. Pure data, no
//! behavior; their JSON (de)serialization lives with the callers that speak
//! JSON.

use std::collections::HashMap;

use vstd::prelude::*;

verus! {

/// The disposition decided for a received mail.
pub type SimpleEmailDispositionValue = String;

/// The slot values attached to an intent.
pub type Slots = HashMap<String, String>;

/// Binary data encoded in base64.
#[derive(Debug, Clone, PartialEq)]
pub struct Base64Data(
    Vec<u8>
);

/// `ApiGatewayRequestIdentity` contains identity information for the request caller.
#[derive(Debug, Clone, PartialEq)]
pub struct ApiGatewayRequestIdentity {
    pub cognito_identity_pool_id: Option<String>,
    pub account_id: Option<String>,
    pub cognito_identity_id: Option<String>,
    pub caller: Option<String>,
    pub api_key: Option<String>,
    pub source_ip: Option<String>,
    pub cognito_authentication_type: Option<String>,
    pub cognito_authentication_provider: Option<String>,
    pub user_arn: Option<String>,
    pub user_agent: Option<String>,
    pub user: Option<String>,
}

/// `ApiGatewayCustomAuthorizerRequestTypeRequestIdentity` contains identity information for the request caller.
#[derive(Debug, Clone, PartialEq)]
pub struct ApiGatewayCustomAuthorizerRequestTypeRequestIdentity {
    pub api_key: Option<String>,
    pub source_ip: Option<String>,
}

/// `ApiGatewayCustomAuthorizerContext` represents the expected format of an API Gateway custom authorizer response.
/// Deprecated. Code should be updated to use the Authorizer map from APIGatewayRequestIdentity. Ex: Authorizer["principalId"]
#[derive(Debug, Clone, PartialEq)]
pub struct ApiGatewayCustomAuthorizerContext {
    pub principal_id: Option<String>,
    pub string_key: Option<String>,
    pub num_key: Option<i64>,
    pub bool_key: Option<bool>,
}

/// `ApiGatewayCustomAuthorizerRequestTypeRequestContext` represents the expected format of an API Gateway custom authorizer response.
#[derive(Debug, Clone, PartialEq)]
pub struct ApiGatewayCustomAuthorizerRequestTypeRequestContext {
    pub path: Option<String>,
    pub account_id: Option<String>,
    pub resource_id: Option<String>,
    pub stage: Option<String>,
    pub request_id: Option<String>,
    pub identity: ApiGatewayCustomAuthorizerRequestTypeRequestIdentity,
    pub resource_path: Option<String>,
    pub http_method: Option<String>,
    pub apiid: Option<String>,
}

/// `ApiGatewayCustomAuthorizerRequest` contains data coming in to a custom API Gateway authorizer function.
#[derive(Debug, Clone, PartialEq)]
pub struct ApiGatewayCustomAuthorizerRequest {
    pub type_: Option<String>,
    pub authorization_token: Option<String>,
    pub method_arn: Option<String>,
}

/// `ApiGatewayCustomAuthorizerRequestTypeRequest` contains data coming in to a custom API Gateway authorizer function.
#[derive(Debug, Clone, PartialEq)]
pub struct ApiGatewayCustomAuthorizerRequestTypeRequest {
    pub type_: Option<String>,
    pub method_arn: Option<String>,
    pub resource: Option<String>,
    pub path: Option<String>,
    pub http_method: Option<String>,
    pub headers: HashMap<String, String>,
    pub query_string_parameters: HashMap<String, String>,
    pub path_parameters: HashMap<String, String>,
    pub stage_variables: HashMap<String, String>,
    pub request_context: ApiGatewayCustomAuthorizerRequestTypeRequestContext,
}

/// `ApiGatewayCustomAuthorizerPolicy` represents an IAM policy
#[derive(Debug, Clone, PartialEq)]
pub struct ApiGatewayCustomAuthorizerPolicy {
    pub version: Option<String>,
    pub statement: Vec<IamPolicyStatement>,
}

#[derive(Debug, Clone, PartialEq)]
pub struct IamPolicyStatement {
    pub action: Vec<String>,
    pub effect: Option<String>,
    pub resource: Vec<String>,
}

/// `CloudwatchLogsEvent` represents raw data from a cloudwatch logs event
#[derive(Debug, Clone, PartialEq)]
pub struct CloudwatchLogsEvent {
    pub aws_logs: CloudwatchLogsRawData,
}

/// `CloudwatchLogsRawData` contains gzipped base64 json representing the bulk
/// of a cloudwatch logs event
#[derive(Debug, Clone, PartialEq)]
pub struct CloudwatchLogsRawData {
    pub data: Option<String>,
}

/// `CloudwatchLogsData` is an unmarshal'd, ungzip'd, cloudwatch logs event
#[derive(Debug, Clone, PartialEq)]
pub struct CloudwatchLogsData {
    pub owner: Option<String>,
    pub log_group: Option<String>,
    pub log_stream: Option<String>,
    pub subscription_filters: Vec<String>,
    pub message_type: Option<String>,
    pub log_events: Vec<CloudwatchLogsLogEvent>,
}

/// LogEvent represents a log entry from cloudwatch logs
#[derive(Debug, Clone, PartialEq)]
pub struct CloudwatchLogsLogEvent {
    pub id: Option<String>,
    pub timestamp: i64,
    pub message: Option<String>,
}

/// `CodeCommitCodeCommit` represents a CodeCommit object in a record
#[derive(Debug, Clone, PartialEq)]
pub struct CodeCommitCodeCommit {
    pub references: Vec<CodeCommitReference>,
}

/// `CodeCommitReference` represents a Reference object in a CodeCommit object
#[derive(Debug, Clone, PartialEq)]
pub struct CodeCommitReference {
    pub commit: Option<String>,
    pub ref_: Option<String>,
    pub created: Option<bool>,
}

/// `CodePipelineEvent` contains data from an event sent from AWS Codepipeline
#[derive(Debug, Clone, PartialEq)]
pub struct CodePipelineEvent {
    pub code_pipeline_job: CodePipelineJob,
}

/// `CodePipelineJob` represents a job from an AWS CodePipeline event
#[derive(Debug, Clone, PartialEq)]
pub struct CodePipelineJob {
    pub id: Option<String>,
    pub account_id: Option<String>,
    pub data: CodePipelineData,
}

/// `CodePipelineData` represents a job from an AWS CodePipeline event
#[derive(Debug, Clone, PartialEq)]
pub struct CodePipelineData {
    pub action_configuration: CodePipelineActionConfiguration,
    pub input_artifacts: Vec<CodePipelineInputArtifact>,
    pub out_put_artifacts: Vec<CodePipelineOutputArtifact>,
    pub artifact_credentials: CodePipelineArtifactCredentials,
    pub continuation_token: Option<String>,
}

/// `CodePipelineActionConfiguration` represents an Action Configuration
#[derive(Debug, Clone, PartialEq)]
pub struct CodePipelineActionConfiguration {
    pub configuration: CodePipelineConfiguration,
}

/// `CodePipelineConfiguration` represents a configuration for an Action Configuration
#[derive(Debug, Clone, PartialEq)]
pub struct CodePipelineConfiguration {
    pub function_name: Option<String>,
    pub user_parameters: Option<String>,
}

/// `CodePipelineInputArtifact` represents an input artifact
#[derive(Debug, Clone, PartialEq)]
pub struct CodePipelineInputArtifact {
    pub location: CodePipelineInputLocation,
    pub revision: Option<String>,
    pub name: Option<String>,
}

/// `CodePipelineInputLocation` represents a input location
#[derive(Debug, Clone, PartialEq)]
pub struct CodePipelineInputLocation {
    pub s3_location: CodePipelineS3Location,
    pub location_type: Option<String>,
}

/// `CodePipelineS3Location` represents an s3 input location
#[derive(Debug, Clone, PartialEq)]
pub struct CodePipelineS3Location {
    pub bucket_name: Option<String>,
    pub object_key: Option<String>,
}

/// `CodePipelineOutputArtifact` represents an output artifact
#[derive(Debug, Clone, PartialEq)]
pub struct CodePipelineOutputArtifact {
    pub location: CodePipelineInputLocation,
    pub revision: Option<String>,
    pub name: Option<String>,
}

/// `CodePipelineOutputLocation` represents a output location
#[derive(Debug, Clone, PartialEq)]
pub struct CodePipelineOutputLocation {
    pub s3_location: CodePipelineS3Location,
    pub location_type: Option<String>,
}

/// `CodePipelineArtifactCredentials` represents CodePipeline artifact credentials
#[derive(Debug, Clone, PartialEq)]
pub struct CodePipelineArtifactCredentials {
    pub secret_access_key: Option<String>,
    pub session_token: Option<String>,
    pub access_key_id: Option<String>,
}

/// `CognitoEvent` contains data from an event sent from AWS Cognito Sync
#[derive(Debug, Clone, PartialEq)]
pub struct CognitoEvent {
    pub dataset_name: Option<String>,
    pub dataset_records: HashMap<String, CognitoDatasetRecord>,
    pub event_type: Option<String>,
    pub identity_id: Option<String>,
    pub identity_pool_id: Option<String>,
    pub region: Option<String>,
    pub version: i64,
}

/// `CognitoDatasetRecord` represents a record from an AWS Cognito Sync event
#[derive(Debug, Clone, PartialEq)]
pub struct CognitoDatasetRecord {
    pub new_value: Option<String>,
    pub old_value: Option<String>,
    pub op: Option<String>,
}

/// `CognitoEventUserPoolsPreSignup` is sent by AWS Cognito User Pools when a user attempts to register
/// (sign up), allowing a Lambda to perform custom validation to accept or deny the registration request
#[derive(Debug, Clone, PartialEq)]
pub struct CognitoEventUserPoolsPreSignup {
    pub cognito_event_user_pools_header: CognitoEventUserPoolsHeader,
    pub request: CognitoEventUserPoolsPreSignupRequest,
    pub response: CognitoEventUserPoolsPreSignupResponse,
}

/// `CognitoEventUserPoolsPostConfirmation` is sent by AWS Cognito User Pools after a user is confirmed,
/// allowing the Lambda to send custom messages or add custom logic.
#[derive(Debug, Clone, PartialEq)]
pub struct CognitoEventUserPoolsPostConfirmation {
    pub cognito_event_user_pools_header: CognitoEventUserPoolsHeader,
    pub request: CognitoEventUserPoolsPostConfirmationRequest,
    pub response: CognitoEventUserPoolsPostConfirmationResponse,
}

/// `CognitoEventUserPoolsCallerContext` contains information about the caller
#[derive(Debug, Clone, PartialEq)]
pub struct CognitoEventUserPoolsCallerContext {
    pub awssdk_version: Option<String>,
    pub client_id: Option<String>,
}

/// `CognitoEventUserPoolsHeader` contains common data from events sent by AWS Cognito User Pools
#[derive(Debug, Clone, PartialEq)]
pub struct CognitoEventUserPoolsHeader {
    pub version: Option<String>,
    pub trigger_source: Option<String>,
    pub region: Option<String>,
    pub user_pool_id: Option<String>,
    pub caller_context: CognitoEventUserPoolsCallerContext,
    pub user_name: Option<String>,
}

/// `CognitoEventUserPoolsPreSignupRequest` contains the request portion of a PreSignup event
#[derive(Debug, Clone, PartialEq)]
pub struct CognitoEventUserPoolsPreSignupRequest {
    pub user_attributes: HashMap<String, String>,
    pub validation_data: HashMap<String, String>,
}

/// `CognitoEventUserPoolsPreSignupResponse` contains the response portion of a PreSignup event
#[derive(Debug, Clone, PartialEq)]
pub struct CognitoEventUserPoolsPreSignupResponse {
    pub auto_confirm_user: bool,
    pub auto_verify_email: bool,
    pub auto_verify_phone: bool,
}

/// `CognitoEventUserPoolsPostConfirmationRequest` contains the request portion of a PostConfirmation event
#[derive(Debug, Clone, PartialEq)]
pub struct CognitoEventUserPoolsPostConfirmationRequest {
    pub user_attributes: HashMap<String, String>,
}

/// `CognitoEventUserPoolsPostConfirmationResponse` contains the response portion of a PostConfirmation event
#[derive(Debug, Clone, PartialEq)]
pub struct CognitoEventUserPoolsPostConfirmationResponse;


/// `ConfigEvent` contains data from an event sent from AWS Config
#[derive(Debug, Clone, PartialEq)]
pub struct ConfigEvent {
    /// The ID of the AWS account that owns the rule
    pub account_id: Option<String>,
    /// The ARN that AWS Config assigned to the rule
    pub config_rule_arn: Option<String>,
    pub config_rule_id: Option<String>,
    /// The name that you assigned to the rule that caused AWS Config to publish the event
    pub config_rule_name: Option<String>,
    /// A boolean value that indicates whether the AWS resource to be evaluated has been removed from the rule's scope
    pub event_left_scope: bool,
    pub execution_role_arn: Option<String>,
    /// If the event is published in response to a resource configuration change, this value contains a JSON configuration item
    pub invoking_event: Option<String>,
    /// A token that the function must pass to AWS Config with the PutEvaluations call
    pub result_token: Option<String>,
    /// Key/value pairs that the function processes as part of its evaluation logic
    pub rule_parameters: Option<String>,
    pub version: Option<String>,
}

/// `ConnectEvent` contains the data structure for a Connect event.
#[derive(Debug, Clone, PartialEq)]
pub struct ConnectEvent {
    pub details: ConnectDetails,
    /// The name of the event.
    pub name: Option<String>,
}

/// `ConnectDetails` holds the details of a Connect event
#[derive(Debug, Clone, PartialEq)]
pub struct ConnectDetails {
    pub contact_data: ConnectContactData,
    /// The parameters that have been set in the Connect instance at the time of the Lambda invocation.
    pub parameters: HashMap<String, String>,
}

/// `ConnectContactData` holds all of the contact information for the user that invoked the Connect event.
#[derive(Debug, Clone, PartialEq)]
pub struct ConnectContactData {
    /// The custom attributes from Connect that the Lambda function was invoked with.
    pub attributes: HashMap<String, String>,
    pub channel: Option<String>,
    pub contact_id: Option<String>,
    pub customer_endpoint: ConnectEndpoint,
    pub initial_contact_id: Option<String>,
    /// Either: INBOUND/OUTBOUND/TRANSFER/CALLBACK
    pub initiation_method: Option<String>,
    pub previous_contact_id: Option<String>,
    pub queue: ConnectQueue,
    pub system_endpoint: ConnectEndpoint,
    pub instance_arn: Option<String>,
}

/// `ConnectEndpoint` represents routing information.
#[derive(Debug, Clone, PartialEq)]
pub struct ConnectEndpoint {
    pub address: Option<String>,
    pub type_: Option<String>,
}

/// `ConnectQueue` represents a queue object.
#[derive(Debug, Clone, PartialEq)]
pub struct ConnectQueue {
    pub name: Option<String>,
    pub arn: Option<String>,
}

#[derive(Debug, Clone, PartialEq)]
pub struct KinesisFirehoseResponse {
    pub records: Vec<KinesisFirehoseResponseRecord>,
}

#[derive(Debug, Clone, PartialEq)]
pub struct KinesisFirehoseResponseRecord {
    pub record_id: Option<String>,
    /// The status of the transformation. May be TransformedStateOk, TransformedStateDropped or TransformedStateProcessingFailed
    pub result: Option<String>,
    pub data: Base64Data,
}

#[derive(Debug, Clone, PartialEq)]
pub struct IoTButtonEvent {
    pub serial_number: Option<String>,
    pub click_type: Option<String>,
    pub battery_voltage: Option<String>,
}

#[derive(Debug, Clone, PartialEq)]
pub struct LexEvent {
    pub message_version: Option<String>,
    pub invocation_source: Option<String>,
    pub user_id: Option<String>,
    pub input_transcript: Option<String>,
    pub session_attributes: HashMap<String, String>,
    pub request_attributes: HashMap<String, String>,
    pub bot: Option<LexBot>,
    pub output_dialog_mode: Option<String>,
    pub current_intent: Option<LexCurrentIntent>,
    pub dialog_action: Option<LexDialogAction>,
}

#[derive(Debug, Clone, PartialEq)]
pub struct LexBot {
    pub name: Option<String>,
    pub alias: Option<String>,
    pub version: Option<String>,
}

#[derive(Debug, Clone, PartialEq)]
pub struct LexCurrentIntent {
    pub name: Option<String>,
    pub slots: Option<Slots>,
    pub slot_details: HashMap<String, SlotDetail>,
    pub confirmation_status: Option<String>,
}

#[derive(Debug, Clone, PartialEq)]
pub struct SlotDetail {
    pub resolutions: Option<Vec<HashMap<String, String>>>,
    pub original_value: Option<String>,
}

#[derive(Debug, Clone, PartialEq)]
pub struct LexDialogAction {
    pub type_: Option<String>,
    pub fulfillment_state: Option<String>,
    pub message: HashMap<String, String>,
    pub intent_name: Option<String>,
    pub slots: Option<Slots>,
    pub slot_to_elicit: Option<String>,
    pub response_card: Option<LexResponseCard>,
}

#[derive(Debug, Clone, PartialEq)]
pub struct LexResponseCard {
    pub version: Option<i64>,
    pub content_type: Option<String>,
    pub generic_attachments: Option<Vec<Attachment>>,
}

#[derive(Debug, Clone, PartialEq)]
pub struct Attachment {
    pub title: Option<String>,
    pub sub_title: Option<String>,
    pub image_url: Option<String>,
    pub attachment_link_url: Option<String>,
    pub buttons: Option<Vec<HashMap<String, String>>>,
}

#[derive(Debug, Clone, PartialEq)]
pub struct S3UserIdentity {
    pub principal_id: Option<String>,
}

#[derive(Debug, Clone, PartialEq)]
pub struct S3RequestParameters {
    pub source_ip_address: Option<String>,
}

#[derive(Debug, Clone, PartialEq)]
pub struct S3Entity {
    pub schema_version: Option<String>,
    pub configuration_id: Option<String>,
    pub bucket: S3Bucket,
    pub object: S3Object,
}

#[derive(Debug, Clone, PartialEq)]
pub struct S3Bucket {
    pub name: Option<String>,
    pub owner_identity: S3UserIdentity,
    pub arn: Option<String>,
}

#[derive(Debug, Clone, PartialEq)]
pub struct S3Object {
    pub key: Option<String>,
    pub size: i64,
    pub url_decoded_key: Option<String>,
    pub version_id: Option<String>,
    pub e_tag: Option<String>,
    pub sequencer: Option<String>,
}

#[derive(Debug, Clone, PartialEq)]
pub struct SimpleEmailHeader {
    pub name: Option<String>,
    pub value: Option<String>,
}

#[derive(Debug, Clone, PartialEq)]
pub struct SimpleEmailCommonHeaders {
    pub from: Vec<String>,
    pub to: Vec<String>,
    pub return_path: Option<String>,
    pub message_id: Option<String>,
    pub date: Option<String>,
    pub subject: Option<String>,
}

#[derive(Debug, Clone, PartialEq)]
pub struct SimpleEmailReceiptAction {
    pub type_: Option<String>,
    pub invocation_type: Option<String>,
    pub function_arn: Option<String>,
}

#[derive(Debug, Clone, PartialEq)]
pub struct SimpleEmailVerdict {
    pub status: Option<String>,
}

/// `SimpleEmailDisposition` disposition return for SES to control rule functions
#[derive(Debug, Clone, PartialEq)]
pub struct SimpleEmailDisposition {
    pub disposition: SimpleEmailDispositionValue,
}

#[derive(Debug, Clone, PartialEq)]
pub struct SqsEvent {
    pub records: Vec<SqsMessage>,
}

#[derive(Debug, Clone, PartialEq)]
pub struct SqsMessage {
    pub message_id: Option<String>,
    pub receipt_handle: Option<String>,
    pub body: Option<String>,
    pub md5_of_body: Option<String>,
    pub md5_of_message_attributes: Option<String>,
    pub attributes: HashMap<String, String>,
    pub message_attributes: HashMap<String, SqsMessageAttribute>,
    pub event_source_arn: Option<String>,
    pub event_source: Option<String>,
    pub aws_region: Option<String>,
}

#[derive(Debug, Clone, PartialEq)]
pub struct SqsMessageAttribute {
    pub string_value: Option<String>,
    pub binary_value: Option<Base64Data>,
    pub string_list_values: Vec<String>,
    pub binary_list_values: Vec<Base64Data>,
    pub data_type: Option<String>,
}

} // verus!
