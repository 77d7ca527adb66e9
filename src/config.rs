//! Editor settings: stream packages, endpoints, the stream range, and which
//! panels are shown.
use vstd::prelude::*;
use vstd::string::*;

verus! {

/// A stream package: a display name and where the package is fetched from.
pub struct Spkg {
    pub name: String,
    pub url: String,
}

/// A streaming endpoint: a display name and its URL.
pub struct Endpoint {
    pub name: String,
    pub url: String,
}

pub open spec fn uniswap_url() -> Seq<char> {
    "https://github.com/streamingfast/substreams-uniswap-v3/releases/download/v0.2.8/substreams.spkg"@
}

pub open spec fn eth_explorer_url() -> Seq<char> {
    "https://spkg.io/streamingfast/ethereum-explorer-v0.1.2.spkg"@
}

pub open spec fn sf_mainnet_url() -> Seq<char> {
    "https://mainnet.eth.streamingfast.io:443"@
}

pub open spec fn pinax_mainnet_url() -> Seq<char> {
    "https://eth.substreams.pinax.network:443"@
}

impl Spkg {
    pub fn uniswap() -> (r: Spkg)
        ensures
            r.name@ == "Uniswap v3"@,
            r.url@ == uniswap_url(),
    {
        Spkg {
            name: String::from_str("Uniswap v3"),
            url: String::from_str(
                "https://github.com/streamingfast/substreams-uniswap-v3/releases/download/v0.2.8/substreams.spkg",
            ),
        }
    }

    pub fn eth_explorer() -> (r: Spkg)
        ensures
            r.name@ == "Ethereum Explorer"@,
            r.url@ == eth_explorer_url(),
    {
        Spkg {
            name: String::from_str("Ethereum Explorer"),
            url: String::from_str("https://spkg.io/streamingfast/ethereum-explorer-v0.1.2.spkg"),
        }
    }
}

impl Endpoint {
    pub fn sf_mainnet() -> (r: Endpoint)
        ensures
            r.name@ == "Streamingfast Mainnet"@,
            r.url@ == sf_mainnet_url(),
    {
        Endpoint {
            name: String::from_str("Streamingfast Mainnet"),
            url: String::from_str("https://mainnet.eth.streamingfast.io:443"),
        }
    }

    pub fn pinax_mainnet() -> (r: Endpoint)
        ensures
            r.name@ == "Pinax Mainnet"@,
            r.url@ == pinax_mainnet_url(),
    {
        Endpoint {
            name: String::from_str("Pinax Mainnet"),
            url: String::from_str("https://eth.substreams.pinax.network:443"),
        }
    }
}

/// The user's choice of package, endpoint and output module; the selected
/// indices always point into their lists.
pub struct UserConfig {
    substream_list: Vec<Spkg>,
    selected_substream: usize,
    endpoint_list: Vec<Endpoint>,
    selected_endpoint: usize,
    selected_module: String,
}

impl UserConfig {
    pub closed spec fn wf(&self) -> bool {
        &&& self.selected_substream < self.substream_list@.len()
        &&& self.selected_endpoint < self.endpoint_list@.len()
    }

    pub closed spec fn spec_substreams(&self) -> Seq<Spkg> {
        self.substream_list@
    }

    pub closed spec fn spec_endpoints(&self) -> Seq<Endpoint> {
        self.endpoint_list@
    }

    pub closed spec fn spec_selected_substream(&self) -> int {
        self.selected_substream as int
    }

    pub closed spec fn spec_selected_endpoint(&self) -> int {
        self.selected_endpoint as int
    }

    pub closed spec fn spec_selected_module(&self) -> Seq<char> {
        self.selected_module@
    }

    /// The packages offered, in order.
    pub fn substreams(&self) -> (r: &Vec<Spkg>)
        ensures
            r@ == self.spec_substreams(),
    {
        &self.substream_list
    }

    /// The endpoints offered, in order.
    pub fn endpoints(&self) -> (r: &Vec<Endpoint>)
        ensures
            r@ == self.spec_endpoints(),
    {
        &self.endpoint_list
    }

    pub fn selected_substream(&self) -> (r: usize)
        ensures
            r == self.spec_selected_substream(),
    {
        self.selected_substream
    }

    pub fn selected_endpoint(&self) -> (r: usize)
        ensures
            r == self.spec_selected_endpoint(),
    {
        self.selected_endpoint
    }

    /// Selects package `i`; false, with nothing changed, where there is none.
    pub fn select_substream(&mut self, i: usize) -> (r: bool)
        requires
            old(self).wf(),
        ensures
            final(self).wf(),
            r == (i < old(self).spec_substreams().len()),
            final(self).spec_selected_substream() == if r {
                i as int
            } else {
                old(self).spec_selected_substream()
            },
            final(self).spec_selected_endpoint() == old(self).spec_selected_endpoint(),
            final(self).spec_substreams() == old(self).spec_substreams(),
            final(self).spec_endpoints() == old(self).spec_endpoints(),
            final(self).spec_selected_module() == old(self).spec_selected_module(),
    {
        if i < self.substream_list.len() {
            self.selected_substream = i;
            true
        } else {
            false
        }
    }

    /// Selects endpoint `i`; false, with nothing changed, where there is none.
    pub fn select_endpoint(&mut self, i: usize) -> (r: bool)
        requires
            old(self).wf(),
        ensures
            final(self).wf(),
            r == (i < old(self).spec_endpoints().len()),
            final(self).spec_selected_endpoint() == if r {
                i as int
            } else {
                old(self).spec_selected_endpoint()
            },
            final(self).spec_selected_substream() == old(self).spec_selected_substream(),
            final(self).spec_substreams() == old(self).spec_substreams(),
            final(self).spec_endpoints() == old(self).spec_endpoints(),
            final(self).spec_selected_module() == old(self).spec_selected_module(),
    {
        if i < self.endpoint_list.len() {
            self.selected_endpoint = i;
            true
        } else {
            false
        }
    }

    /// The URL of the selected endpoint.
    pub fn selected_endpoint_url(&self) -> (r: &String)
        requires
            self.wf(),
        ensures
            r@ == self.spec_endpoints()[self.spec_selected_endpoint()].url@,
    {
        &self.endpoint_list[self.selected_endpoint].url
    }

    /// The output module's name, to be edited in place.
    pub fn selected_module_mut(&mut self) -> (r: &mut String)
        ensures
            *r == old(self).spec_selected_module_string(),
            final(self).spec_selected_module() == final(r)@,
            final(self).wf() == old(self).wf(),
            final(self).spec_selected_substream() == old(self).spec_selected_substream(),
            final(self).spec_selected_endpoint() == old(self).spec_selected_endpoint(),
            final(self).spec_substreams() == old(self).spec_substreams(),
            final(self).spec_endpoints() == old(self).spec_endpoints(),
    {
        &mut self.selected_module
    }

    pub closed spec fn spec_selected_module_string(&self) -> String {
        self.selected_module
    }
}

impl UserConfig {
    /// Both packages offered, Uniswap v3 then the Ethereum explorer; both
    /// endpoints offered, Pinax then StreamingFast; the first of each
    /// selected; the output module `graph_out`.
    pub open spec fn is_default(&self) -> bool {
        &&& self.wf()
        &&& self.spec_substreams().len() == 2
        &&& self.spec_substreams()[0].name@ == "Uniswap v3"@
        &&& self.spec_substreams()[0].url@ == uniswap_url()
        &&& self.spec_substreams()[1].name@ == "Ethereum Explorer"@
        &&& self.spec_substreams()[1].url@ == eth_explorer_url()
        &&& self.spec_endpoints().len() == 2
        &&& self.spec_endpoints()[0].name@ == "Pinax Mainnet"@
        &&& self.spec_endpoints()[0].url@ == pinax_mainnet_url()
        &&& self.spec_endpoints()[1].name@ == "Streamingfast Mainnet"@
        &&& self.spec_endpoints()[1].url@ == sf_mainnet_url()
        &&& self.spec_selected_substream() == 0
        &&& self.spec_selected_endpoint() == 0
        &&& self.spec_selected_module() == "graph_out"@
    }
}

impl Default for UserConfig {
    /// Both packages and both endpoints offered, the first of each selected,
    /// and the module `graph_out`.
    fn default() -> (r: UserConfig)
        ensures
            r.is_default(),
    {
        let mut substream_list = Vec::new();
        substream_list.push(Spkg::uniswap());
        substream_list.push(Spkg::eth_explorer());
        let mut endpoint_list = Vec::new();
        endpoint_list.push(Endpoint::pinax_mainnet());
        endpoint_list.push(Endpoint::sf_mainnet());
        UserConfig {
            substream_list,
            selected_substream: 0,
            endpoint_list,
            selected_endpoint: 0,
            selected_module: String::from_str("graph_out"),
        }
    }
}

/// What a range stream runs: module, package, endpoint and block range.
pub struct EditorConfig {
    pub module_name: String,
    pub substream_package: String,
    pub substream_endpoint: String,
    pub stream_start_block: i64,
    pub stream_stop_block: u64,
}

impl EditorConfig {
    /// The module `graph_out` of the Uniswap v3 package on the StreamingFast
    /// mainnet endpoint, over ten blocks from 12369621.
    pub open spec fn is_default(&self) -> bool {
        &&& self.module_name@ == "graph_out"@
        &&& self.substream_package@ == uniswap_url()
        &&& self.substream_endpoint@ == sf_mainnet_url()
        &&& self.stream_start_block == 12369621
        &&& self.stream_stop_block == 12369631
    }
}

impl Default for EditorConfig {
    fn default() -> (r: EditorConfig)
        ensures
            r.is_default(),
    {
        EditorConfig {
            module_name: String::from_str("graph_out"),
            substream_endpoint: String::from_str("https://mainnet.eth.streamingfast.io:443"),
            substream_package: String::from_str(
                "https://github.com/streamingfast/substreams-uniswap-v3/releases/download/v0.2.8/substreams.spkg",
            ),
            stream_start_block: 12369621,
            stream_stop_block: 12369631,
        }
    }
}

/// Which panels and windows are shown.
pub struct EditorViews {
    pub show_config: bool,
    pub show_full_source: bool,
    pub show_null_json: bool,
    pub show_modules: bool,
    pub show_messages: bool,
    pub show_user_config: bool,
    pub show_block_cache: bool,
}

impl EditorViews {
    /// The module and message panels shown, everything else hidden.
    pub open spec fn is_default(&self) -> bool {
        &&& !self.show_config && !self.show_full_source && !self.show_null_json
        &&& self.show_modules && self.show_messages
        &&& !self.show_user_config && !self.show_block_cache
    }
}

impl Default for EditorViews {
    fn default() -> (r: EditorViews)
        ensures
            r.is_default(),
    {
        EditorViews {
            show_config: false,
            show_full_source: false,
            show_null_json: false,
            show_modules: true,
            show_messages: true,
            show_user_config: false,
            show_block_cache: false,
        }
    }
}

} // verus!
