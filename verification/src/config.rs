//! Static configuration: a root store of service, protocol and
//! free-form key-value entries, looked up by string key.

use vstd::prelude::*;

verus! {

/// A dynamically-typed configuration value.
#[derive(Debug)]
pub enum ConfigValue {
    Bool(bool),
    Str(String),
}

/// Configuration of one exposed protocol endpoint.
#[derive(Debug)]
pub struct ProtocolConfig {
    pub name: String,
    pub ip: String,
    pub port: String,
}

impl Default for ProtocolConfig {
    fn default() -> (c: Self)
        ensures
            c.name@ == Seq::<char>::empty(),
            c.ip@ == Seq::<char>::empty(),
            c.port@ == Seq::<char>::empty(),
    {
        ProtocolConfig { name: String::new(), ip: String::new(), port: String::new() }
    }
}

impl ProtocolConfig {
    /// Set the protocol's name.
    pub fn name(self, name: String) -> (c: Self)
        ensures
            c == (ProtocolConfig { name, ..self }),
    {
        ProtocolConfig { name, ..self }
    }

    /// Set the address the protocol listens on.
    pub fn ip(self, ip: String) -> (c: Self)
        ensures
            c == (ProtocolConfig { ip, ..self }),
    {
        ProtocolConfig { ip, ..self }
    }

    /// Set the port the protocol listens on.
    pub fn port(self, port: String) -> (c: Self)
        ensures
            c == (ProtocolConfig { port, ..self }),
    {
        ProtocolConfig { port, ..self }
    }
}

/// Configuration of one exposed service.
#[derive(Debug)]
pub struct ServiceConfig {
    pub name: String,
    pub group: String,
    pub serializer: String,
    pub version: String,
    pub protocol_names: Vec<String>,
    pub protocols: Vec<ProtocolConfig>,
}

impl Default for ServiceConfig {
    fn default() -> (c: Self)
        ensures
            c.name@ == Seq::<char>::empty(),
            c.group@ == Seq::<char>::empty(),
            c.serializer@ == Seq::<char>::empty(),
            c.version@ == Seq::<char>::empty(),
            c.protocol_names@ == Seq::<String>::empty(),
            c.protocols@ == Seq::<ProtocolConfig>::empty(),
    {
        ServiceConfig {
            name: String::new(),
            group: String::new(),
            serializer: String::new(),
            version: String::new(),
            protocol_names: Vec::new(),
            protocols: Vec::new(),
        }
    }
}

impl ServiceConfig {
    /// Set the service's name.
    pub fn name(self, name: String) -> (c: Self)
        ensures
            c == (ServiceConfig { name, ..self }),
    {
        ServiceConfig { name, ..self }
    }

    /// Set the service's group.
    pub fn group(self, group: String) -> (c: Self)
        ensures
            c == (ServiceConfig { group, ..self }),
    {
        ServiceConfig { group, ..self }
    }

    /// Set the service's serialization format.
    pub fn serializer(self, serializer: String) -> (c: Self)
        ensures
            c == (ServiceConfig { serializer, ..self }),
    {
        ServiceConfig { serializer, ..self }
    }

    /// Set the service's version.
    pub fn version(self, version: String) -> (c: Self)
        ensures
            c == (ServiceConfig { version, ..self }),
    {
        ServiceConfig { version, ..self }
    }

    /// Add the name of a protocol the service is exposed over.
    pub fn protocol_names(self, name: String) -> (c: Self)
        ensures
            c.name == self.name,
            c.group == self.group,
            c.serializer == self.serializer,
            c.version == self.version,
            c.protocol_names@ == self.protocol_names@.push(name),
            c.protocols == self.protocols,
    {
        let mut s = self;
        s.protocol_names.push(name);
        s
    }

    /// Add the configuration of a protocol the service is exposed over.
    pub fn add_protocol_configs(self, protocol: ProtocolConfig) -> (c: Self)
        ensures
            c.name == self.name,
            c.group == self.group,
            c.serializer == self.serializer,
            c.version == self.version,
            c.protocol_names == self.protocol_names,
            c.protocols@ == self.protocols@.push(protocol),
    {
        let mut s = self;
        s.protocols.push(protocol);
        s
    }
}

/// The first value stored under `key`, if any.
pub open spec fn assoc_lookup<V>(entries: Seq<(String, V)>, key: Seq<char>) -> Option<V>
    decreases entries.len(),
{
    if entries.len() == 0 {
        Option::None
    } else if entries[0].0@ == key {
        Option::Some(entries[0].1)
    } else {
        assoc_lookup(entries.drop_first(), key)
    }
}

/// The root of all structured configuration, from whatever source it was
/// loaded: named services, named protocols, and free-form data entries.
#[derive(Debug)]
pub struct RootConfig {
    pub name: String,
    pub service: Vec<(String, ServiceConfig)>,
    pub protocols: Vec<(String, ProtocolConfig)>,
    pub data: Vec<(String, ConfigValue)>,
}

/// The fixed service entry exposed under the name `echo`.
pub open spec fn is_echo_service(sc: ServiceConfig) -> bool {
    &&& sc.name@ == "echo"@
    &&& sc.group@ == "test"@
    &&& sc.serializer@ == "json"@
    &&& sc.version@ == "1.0.0"@
    &&& sc.protocol_names@.len() == 1 && sc.protocol_names@[0]@ == "triple"@
    &&& sc.protocols@.len() == 1 && is_triple_protocol(sc.protocols@[0], "8888"@)
}

/// The fixed service entry exposed under the name `helloworld.Greeter`.
pub open spec fn is_greeter_service(sc: ServiceConfig) -> bool {
    &&& sc.name@ == "helloworld.Greeter"@
    &&& sc.group@ == "test"@
    &&& sc.serializer@ == "json"@
    &&& sc.version@ == "1.0.0"@
    &&& sc.protocol_names@.len() == 1 && sc.protocol_names@[0]@ == "triple"@
    &&& sc.protocols@.len() == 0
}

/// A `triple` protocol endpoint on every interface, at the given port.
pub open spec fn is_triple_protocol(p: ProtocolConfig, port: Seq<char>) -> bool {
    &&& p.name@ == "triple"@
    &&& p.ip@ == "0.0.0.0"@
    &&& p.port@ == port
}

impl RootConfig {
    /// An empty root configuration.
    pub fn new() -> (c: Self)
        ensures
            c.name@ == "dubbo"@,
            c.service@ == Seq::<(String, ServiceConfig)>::empty(),
            c.protocols@ == Seq::<(String, ProtocolConfig)>::empty(),
            c.data@ == Seq::<(String, ConfigValue)>::empty(),
    {
        RootConfig {
            name: "dubbo".to_owned(),
            service: Vec::new(),
            protocols: Vec::new(),
            data: Vec::new(),
        }
    }

    /// Fill the store with its fixed entries: the `echo` and
    /// `helloworld.Greeter` services, the `triple` protocol, and the
    /// provider URL data entry.
    pub fn load(&mut self)
        ensures
            final(self).name == old(self).name,
            final(self).service@.len() == old(self).service@.len() + 2,
            final(self).service@.subrange(0, old(self).service@.len() as int) == old(
                self,
            ).service@,
            ({
                let s0 = final(self).service@[old(self).service@.len() as int];
                s0.0@ == "echo"@ && is_echo_service(s0.1)
            }),
            ({
                let s1 = final(self).service@[old(self).service@.len() as int + 1];
                s1.0@ == "helloworld.Greeter"@ && is_greeter_service(s1.1)
            }),
            final(self).protocols@.len() == old(self).protocols@.len() + 1,
            final(self).protocols@.subrange(0, old(self).protocols@.len() as int) == old(
                self,
            ).protocols@,
            ({
                let p0 = final(self).protocols@[old(self).protocols@.len() as int];
                p0.0@ == "triple"@ && is_triple_protocol(p0.1, "8889"@)
            }),
            final(self).data@.len() == old(self).data@.len() + 1,
            final(self).data@.subrange(0, old(self).data@.len() as int) == old(self).data@,
            ({
                let d0 = final(self).data@[old(self).data@.len() as int];
                d0.0@ == "dubbo.provider.url"@ && (d0.1 matches ConfigValue::Str(url) && url@
                    == "dubbo://127.0.0.1:8888/?serviceName=hellworld"@)
            }),
    {
        let service_config = ServiceConfig::default()
            .group("test".to_owned())
            .serializer("json".to_owned())
            .version("1.0.0".to_owned())
            .protocol_names("triple".to_owned())
            .name("echo".to_owned());

        let triple_config = ProtocolConfig::default()
            .name("triple".to_owned())
            .ip("0.0.0.0".to_owned())
            .port("8888".to_owned());

        let service_config = service_config.add_protocol_configs(triple_config);
        self.service.push(("echo".to_owned(), service_config));
        self.service.push((
            "helloworld.Greeter".to_owned(),
            ServiceConfig::default()
                .group("test".to_owned())
                .serializer("json".to_owned())
                .version("1.0.0".to_owned())
                .name("helloworld.Greeter".to_owned())
                .protocol_names("triple".to_owned()),
        ));
        self.protocols.push((
            "triple".to_owned(),
            ProtocolConfig::default()
                .name("triple".to_owned())
                .ip("0.0.0.0".to_owned())
                .port("8889".to_owned()),
        ));
        self.data.push((
            "dubbo.provider.url".to_owned(),
            ConfigValue::Str("dubbo://127.0.0.1:8888/?serviceName=hellworld".to_owned()),
        ));
        proof {
            assert(self.service@.subrange(0, old(self).service@.len() as int) =~= old(
                self,
            ).service@);
            assert(self.protocols@.subrange(0, old(self).protocols@.len() as int) =~= old(
                self,
            ).protocols@);
            assert(self.data@.subrange(0, old(self).data@.len() as int) =~= old(self).data@);
        }
    }
}

/// Build the global configuration: an empty root filled with its fixed
/// entries.
pub fn get_global_config() -> (c: RootConfig)
    ensures
        c.name@ == "dubbo"@,
        c.service@.len() == 2,
        c.service@[0].0@ == "echo"@ && is_echo_service(c.service@[0].1),
        c.service@[1].0@ == "helloworld.Greeter"@ && is_greeter_service(c.service@[1].1),
        c.protocols@.len() == 1,
        c.protocols@[0].0@ == "triple"@ && is_triple_protocol(c.protocols@[0].1, "8889"@),
        c.data@.len() == 1,
        c.data@[0].0@ == "dubbo.provider.url"@ && (c.data@[0].1 matches ConfigValue::Str(url)
            && url@ == "dubbo://127.0.0.1:8888/?serviceName=hellworld"@),
{
    let mut c = RootConfig::new();
    c.load();
    c
}

/// What business components read their settings through.
pub trait Config {
    /// The boolean stored under `key`; `false` when absent or not boolean.
    fn bool(&self, key: String) -> bool;

    /// The string stored under `key`; empty when absent or not a string.
    fn string(&self, key: String) -> String;
}

impl Config for RootConfig {
    fn bool(&self, key: String) -> (r: bool)
        ensures
            r == (match assoc_lookup(self.data@, key@) {
                Option::Some(ConfigValue::Bool(b)) => b,
                _ => false,
            }),
    {
        proof {
            assert(self.data@.skip(0) =~= self.data@);
        }
        let mut i: usize = 0;
        while i < self.data.len()
            invariant
                i <= self.data@.len(),
                assoc_lookup(self.data@, key@) == assoc_lookup(self.data@.skip(i as int), key@),
            decreases self.data@.len() - i,
        {
            let entry = &self.data[i];
            if entry.0 == key {
                match &entry.1 {
                    ConfigValue::Bool(b) => {
                        return *b;
                    },
                    _ => {
                        return false;
                    },
                }
            }
            proof {
                assert(self.data@.skip(i as int).drop_first() =~= self.data@.skip(i + 1));
            }
            i += 1;
        }
        false
    }

    fn string(&self, key: String) -> (r: String)
        ensures
            r@ == (match assoc_lookup(self.data@, key@) {
                Option::Some(ConfigValue::Str(s)) => s@,
                _ => Seq::<char>::empty(),
            }),
    {
        proof {
            assert(self.data@.skip(0) =~= self.data@);
        }
        let mut i: usize = 0;
        while i < self.data.len()
            invariant
                i <= self.data@.len(),
                assoc_lookup(self.data@, key@) == assoc_lookup(self.data@.skip(i as int), key@),
            decreases self.data@.len() - i,
        {
            let entry = &self.data[i];
            if entry.0 == key {
                match &entry.1 {
                    ConfigValue::Str(s) => {
                        return s.clone();
                    },
                    _ => {
                        return String::new();
                    },
                }
            }
            proof {
                assert(self.data@.skip(i as int).drop_first() =~= self.data@.skip(i + 1));
            }
            i += 1;
        }
        String::new()
    }
}

/// What a business component implements to initialize itself from
/// configuration.
pub trait BusinessConfig: Sized {
    /// Build the component from the loaded configuration.
    fn init() -> Self;

    /// Reload the component's configuration.
    fn load() -> Result<(), std::convert::Infallible>;
}

} // verus!
