# event_harness

A harness for testing producers in event-driven architectures. It receives
events from Amazon SQS, SNS or EventBridge (or serves stored ones over HTTP),
reads a configured property out of each event by a JSON Pointer, and stores the
events in DynamoDB, keyed by that property and the time of arrival.

Configuration comes from the environment:

- `TABLE_NAME`: the DynamoDB table (required)
- `EVENT_HARNESS_PROPERTY_JSON_POINTER_PATH`: the JSON Pointer of the property (required)
- `EVENT_SOURCE`: `sqs` (the default) or `eventbridge`, in any case
- `EVENT_HARNESS_LAMBDA`: run as a Lambda function when set, as a container otherwise

## Layout

- `src/` is the library, with its contracts and proofs:
  - `config`: the configuration decided from the variables' values
  - `application`: turning event data into the event to store
  - `json`: reading the property out of JSON event data through `serde_json`
  - `domain`: events and timestamps
  - `infrastructure`: how events are laid out as DynamoDB items and read back
  - `interface`: what each handler takes from SQS, SNS, EventBridge and HTTP, and the
    container runner's polling plan
  - `decimal`, `text`: numerals and character helpers
- `app/` is the binary: environment, AWS clients, the Lambda runtime and the
  polling loops, which hand plain values to the library and act on what it returns.
- `tests/` exercise the library, including comparisons with `serde_json` and `std`.
