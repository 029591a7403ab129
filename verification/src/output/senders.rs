//! Where formatted readings go: the console, a file, the network, an MQTT
//! topic or a WebSocket. Each sender names its kind and its destination.

use vstd::prelude::*;

use crate::text::owned;

verus! {

/// Writes to standard output.
pub struct ConsoleSender;

/// Writes to a file, appending or replacing it.
pub struct FileSender {
    file_path: String,
    append: bool,
}

/// Sends to a network endpoint.
pub struct NetworkSender {
    endpoint: String,
}

/// Publishes to a topic of an MQTT broker.
pub struct MqttSender {
    broker_url: String,
    topic: String,
}

/// Sends over a WebSocket.
pub struct WebSocketSender {
    ws_url: String,
}

impl ConsoleSender {
    pub fn sender_type(&self) -> (s: &'static str)
        ensures
            s@ == "console"@,
    {
        "console"
    }

    pub fn destination(&self) -> (s: &'static str)
        ensures
            s@ == "stdout"@,
    {
        "stdout"
    }
}

impl FileSender {
    pub closed spec fn spec_path(&self) -> Seq<char> {
        self.file_path@
    }

    pub closed spec fn spec_append(&self) -> bool {
        self.append
    }

    pub fn new(file_path: &str, append: bool) -> (s: Self)
        ensures
            s.spec_path() == file_path@,
            s.spec_append() == append,
    {
        FileSender { file_path: owned(file_path), append }
    }

    /// Whether data is appended to the file rather than replacing it.
    pub fn appends(&self) -> (b: bool)
        ensures
            b == self.spec_append(),
    {
        self.append
    }

    pub fn sender_type(&self) -> (s: &'static str)
        ensures
            s@ == "file"@,
    {
        "file"
    }

    pub fn destination(&self) -> (s: &str)
        ensures
            s@ == self.spec_path(),
    {
        self.file_path.as_str()
    }
}

impl NetworkSender {
    pub closed spec fn spec_endpoint(&self) -> Seq<char> {
        self.endpoint@
    }

    pub fn new(endpoint: String) -> (s: Self)
        ensures
            s.spec_endpoint() == endpoint@,
    {
        NetworkSender { endpoint }
    }

    pub fn sender_type(&self) -> (s: &'static str)
        ensures
            s@ == "network"@,
    {
        "network"
    }

    pub fn destination(&self) -> (s: &str)
        ensures
            s@ == self.spec_endpoint(),
    {
        self.endpoint.as_str()
    }
}

impl MqttSender {
    pub closed spec fn spec_broker(&self) -> Seq<char> {
        self.broker_url@
    }

    pub closed spec fn spec_topic(&self) -> Seq<char> {
        self.topic@
    }

    pub fn new(broker_url: String, topic: String) -> (s: Self)
        ensures
            s.spec_broker() == broker_url@,
            s.spec_topic() == topic@,
    {
        MqttSender { broker_url, topic }
    }

    /// The broker published to.
    pub fn broker_url(&self) -> (s: &str)
        ensures
            s@ == self.spec_broker(),
    {
        self.broker_url.as_str()
    }

    pub fn sender_type(&self) -> (s: &'static str)
        ensures
            s@ == "mqtt"@,
    {
        "mqtt"
    }

    /// The topic published to.
    pub fn destination(&self) -> (s: &str)
        ensures
            s@ == self.spec_topic(),
    {
        self.topic.as_str()
    }
}

impl WebSocketSender {
    pub closed spec fn spec_url(&self) -> Seq<char> {
        self.ws_url@
    }

    pub fn new(ws_url: String) -> (s: Self)
        ensures
            s.spec_url() == ws_url@,
    {
        WebSocketSender { ws_url }
    }

    pub fn sender_type(&self) -> (s: &'static str)
        ensures
            s@ == "websocket"@,
    {
        "websocket"
    }

    pub fn destination(&self) -> (s: &str)
        ensures
            s@ == self.spec_url(),
    {
        self.ws_url.as_str()
    }
}

} // verus!
