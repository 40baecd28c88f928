//! Client-side core of a data-hub time-series API client: request and
//! response envelopes, filter and update builders, the datapoint batch
//! planner that splits oversized submissions into bounded sub-requests,
//! and the token-cache decision logic for OAuth2 authentication.

pub mod datahub;
pub mod event_filters;
pub mod events;
pub mod fields;
pub mod files;
pub mod filter_json;
pub mod filters;
pub mod generic;
pub mod graph_data_wrapper;
pub mod http;
pub mod naming;
pub mod numeric;
pub mod planner;
pub mod resources;
pub mod timeseries;

pub use datahub::{
    install_exchange, refresh_round_exchanges, refresh_round_state, refresh_round_token,
    serve_n_exchanges, serve_n_state, spec_has_valid_token, spec_token_decision, token_expired_at,
    lemma_round_follows_decision, lemma_single_inflight_refresh, lemma_static_token_never_refreshes, DataHubApi, DataHubConfig,
    GrantKind, TokenDecision,
};
pub use event_filters::{
    basic_event_filter_unset, AdvancedEventFilter, BasicEventFilter, EventFilter,
    RelatedResourceFilter, TimeFilter,
};
pub use events::{
    empty_events_filter, event_wf, md_has_key, md_insert_relates, md_remove_relates, md_wf,
    set_property_relates, Event, EventsFilter, Metadata, RetrieveEventsFilter,
};
pub use filter_json::{
    json_escaped, json_escaped_char, json_of_advanced, json_of_filter, json_of_filter_seq,
    json_of_opt_string, json_of_related, json_of_string_seq, json_string_of,
};
pub use fields::{field_unset, list_field_unset, map_field_unset, Field, ListField, MapField};
pub use filters::{Filter, Filters, Operation};
pub use files::{mime_of, FileUpload, MimeDetection};
pub use graph_data_wrapper::{GraphDataWrapper, GraphNode, GraphParsedBody};
pub use resources::{ResourceUpdate, ResourceUpdateFields};
pub use generic::{
    col_key, collection_hash_input, keeps_item, kept_items, opt_str_view, render_of_collection,
    render_of_opt_str, render_of_opt_u64, render_of_wrapper, spec_collection_hash, DataWrapper,
    DatapointString, DatapointsCollection, DeleteFilter, IdAndExtId, IdAndExtIdCollection,
    Identifiable, RelationForm, RetrieveFilter, SearchAndFilterForm, SearchForm,
};
pub use http::{is_success_status, process_response, ParsedBody, ResponseError};
pub use naming::{
    alphanumeric_char, keeps_leading_underscore, lower_of, snake_case_of, squashed_of,
    to_snake_lower_cased_allow_start_with_digits, trim_end_underscores, trim_start_underscores,
    whitespace_char,
};
pub use numeric::{
    all_digit_chars, decimal_digits, digit_char, digits_value, is_digit_char, parse_u64,
    u64_to_string,
};
pub use timeseries::{
    LimitParam, TimeSeries, TimeSeriesUpdate, TimeSeriesUpdateCollection, TimeSeriesUpdateFields,
};
pub use planner::{
    active_count, batched_points_for, distinct_keys, keyed_entries, points_for, same_series,
    total_points, MAX_DATAPOINTS_PER_REQUEST,
};
