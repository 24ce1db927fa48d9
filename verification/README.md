# query_db_invoke_agent

A question-answering service for a customer table. A request carries a
command such as `Where does [John Doe] live?`. The name in brackets is looked
up in a DynamoDB table for the customer's address, the command and the address
are sent to a Bedrock model, and the model's streamed answer is returned.

- `src/` is the library, verified with Verus:
  - `name.rs`: the name in brackets (through the `regex` crate) and its laws;
  - `dynamo.rs`: the address query, the items of a query result as maps, and
    the address read from them. An item is a list of (name, value) entries
    kept free of repeated names, seen as a map: vstd specifies std's
    `HashMap` only for keys that obey its key model, which it establishes
    for integer and `bool` keys but not for `String`;
  - `bedrock.rs`: the model's region, the failures and how they read;
  - `stream.rs`: the text of each streamed event, one step of collecting the
    answer, and the laws of the collected text;
  - `handler.rs`: the request, the reply, and the text sent to the model.
- `app/` is the Lambda function around it: the network calls to DynamoDB and
  Bedrock, the JSON forms of request and reply, and a small command that opens
  a file (run with `--input <path>`). `app/ner.rs` holds the entity-tagging
  command, which needs `rust_bert` and stays outside the build. The model to invoke is named by the
  `BEDROCK_MODEL_ID` environment variable; the library's request and failure
  texts carry whatever model that names.
- `tests/` runs the library on concrete values.
