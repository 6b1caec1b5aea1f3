//! The handle of one loaded component, and the operations that drive it.

use crate::engine::{
    as_dict, bool_object, call_method0, dict_get_item, dict_items, dict_set_item, error_text,
    eval_with_locals, exception_text, extract_bool, extract_int, extract_string, getattr,
    import_module, index_error, int_object, load_module, module_locals,
};
use crate::ports::Ports;
use crate::text::{c_string, lemma_c_string_concat};
use crate::value::{CPyPortType, Value};
use pyo3::types::{PyDict, PyModule};
use pyo3::{Py, PyErr, PyObject, Python};
use vstd::prelude::*;
use vstd::string::*;

verus! {

/// How a double crosses between the interpreter and this crate.
///
/// The crate carries a double as its 64-bit IEEE 754 pattern and leaves the
/// two conversions between an object of the interpreter and that pattern to
/// the host, which supplies them when it creates a component.
pub trait DoubleCodec {
    /// The pattern of the double that `object` converts to, as Python's
    /// `float(..)` protocol gives it, or the exception that the conversion
    /// raised.
    fn double_bits(&self, py: Python<'_>, object: &PyObject) -> Result<u64, PyErr>;

    /// A `float` of the interpreter with the given pattern.
    fn double_object(&self, py: Python<'_>, bits: u64) -> PyObject;
}

/// The source of a component: the text of a Python module, the name under
/// which it is loaded and the file name that its tracebacks show.
#[derive(Clone, Debug)]
pub struct CPyModule {
    pub content: String,
    pub module_name: String,
    pub file_name: String,
}

/// One loaded component: the module, the names under which its constructor
/// was evaluated, and the instance. The handle owns all three and shares
/// them with no other handle.
pub struct CPy<C: DoubleCodec> {
    _module: Py<PyModule>,
    _locals: Py<PyDict>,
    instance: PyObject,
    doubles: C,
}

/// The two behaviours that a component has.
#[derive(Clone, Copy, Debug, PartialEq, Eq, Structural)]
pub enum Behaviour {
    Configure,
    Run,
}

/// The two keys that the record of a port has.
#[derive(Clone, Copy, Debug, PartialEq, Eq, Structural)]
pub enum Key {
    Type,
    Value,
}

impl Behaviour {
    /// The name of the method that carries the behaviour.
    pub open spec fn spec_name(self) -> Seq<char> {
        match self {
            Behaviour::Configure => "configure"@,
            Behaviour::Run => "run"@,
        }
    }

    /// The name of the method that carries the behaviour.
    pub fn name(self) -> (name: &'static str)
        ensures
            name@ == self.spec_name(),
    {
        match self {
            Behaviour::Configure => "configure",
            Behaviour::Run => "run",
        }
    }
}

impl Key {
    /// The key as the record spells it.
    pub open spec fn spec_name(self) -> Seq<char> {
        match self {
            Key::Type => "type"@,
            Key::Value => "value"@,
        }
    }

    /// What is said of a record that lacks the key.
    pub open spec fn spec_missing(self) -> Seq<char> {
        match self {
            Key::Type => "No key 'type'"@,
            Key::Value => "No key 'value'"@,
        }
    }

    /// The key as the record spells it.
    pub fn name(self) -> (name: &'static str)
        ensures
            name@ == self.spec_name(),
    {
        match self {
            Key::Type => "type",
            Key::Value => "value",
        }
    }

    /// What is said of a record that lacks the key.
    pub fn missing(self) -> (message: &'static str)
        ensures
            message@ == self.spec_missing(),
    {
        match self {
            Key::Type => "No key 'type'",
            Key::Value => "No key 'value'",
        }
    }
}

/// The name of the attribute under which a component keeps its ports.
pub open spec fn ports_attribute() -> Seq<char> {
    "outports"@
}

/// The name of the attribute under which a component keeps its ports.
pub fn ports_attribute_name() -> (name: &'static str)
    ensures
        name@ == ports_attribute(),
{
    "outports"
}

/// What a failed creation reports: that the module did not load, that the
/// constructor could not be evaluated, or the text of an exception.
pub open spec fn creation_failure(message: Seq<char>, module_name: Seq<char>) -> bool {
    message == load_failure(module_name) || message == eval_failure() || exception_text(message)
}

impl CPyModule {
    /// None of the three texts has a NUL inside.
    pub open spec fn free_of_nul(&self) -> bool {
        &&& c_string(self.content@) is Some
        &&& c_string(self.module_name@) is Some
        &&& c_string(self.file_name@) is Some
    }
}

/// The expression that constructs the component: the class, qualified by its
/// module, called without arguments.
pub open spec fn constructor_call(module_name: Seq<char>, class_name: Seq<char>) -> Seq<char> {
    module_name + "."@ + class_name + "()"@
}

/// The message of a module that did not load.
pub open spec fn load_failure(module_name: Seq<char>) -> Seq<char> {
    "Could not load module "@ + module_name
}

/// What is said of a tag that names none of the three kinds.
pub open spec fn unknown_tag(tag: Seq<char>) -> Seq<char> {
    "Unknown type '"@ + tag + "'"@
}

/// The text of `unknown_tag`.
pub fn unknown_tag_text(tag: &str) -> (message: String)
    ensures
        message@ == unknown_tag(tag@),
{
    let mut message = String::from_str("Unknown type '");
    message.append(tag);
    message.append("'");
    message
}

/// The message of a constructor that could not be evaluated.
pub open spec fn eval_failure() -> Seq<char> {
    "Could not eval code"@
}

/// A NUL inside the name of the class is a NUL inside the expression that
/// constructs it.
pub proof fn lemma_constructor_call_nul(module_name: Seq<char>, class_name: Seq<char>)
    requires
        c_string(class_name) is None,
    ensures
        c_string(constructor_call(module_name, class_name)) is None,
{
    lemma_c_string_concat(module_name + "."@, class_name);
    lemma_c_string_concat(module_name + "."@ + class_name, "()"@);
}

/// The text of `constructor_call`.
pub fn constructor_call_text(module_name: &str, class_name: &str) -> (code: String)
    ensures
        code@ == constructor_call(module_name@, class_name@),
{
    let mut code = String::from_str(module_name);
    code.append(".");
    code.append(class_name);
    code.append("()");
    code
}

/// The text of `load_failure`.
pub fn load_failure_text(module_name: &str) -> (message: String)
    ensures
        message@ == load_failure(module_name@),
{
    let mut message = String::from_str("Could not load module ");
    message.append(module_name);
    message
}

/// What loading the module comes to: the module, or `load_failure` in place
/// of whatever the interpreter raised.
pub fn load_outcome(result: Result<Py<PyModule>, PyErr>, module_name: &str) -> (r: Result<
    Py<PyModule>,
    String,
>)
    ensures
        match result {
            Ok(module) => r == Ok::<Py<PyModule>, String>(module),
            Err(_) => r is Err && r->Err_0@ == load_failure(module_name@),
        },
{
    match result {
        Ok(module) => Ok(module),
        Err(_) => Err(load_failure_text(module_name)),
    }
}

/// What evaluating the constructor comes to: the instance, or `eval_failure`
/// in place of whatever the interpreter raised.
pub fn eval_outcome(result: Result<PyObject, PyErr>) -> (r: Result<PyObject, String>)
    ensures
        match result {
            Ok(instance) => r == Ok::<PyObject, String>(instance),
            Err(_) => r is Err && r->Err_0@ == eval_failure(),
        },
{
    match result {
        Ok(instance) => Ok(instance),
        Err(_) => Err(String::from_str("Could not eval code")),
    }
}

/// What a call of one of the component's behaviours comes to: the value that
/// the behaviour returned is dropped, and an exception becomes its text.
pub fn call_outcome(result: Result<PyObject, PyErr>) -> (r: Result<(), String>)
    ensures
        r is Ok <==> result is Ok,
        r matches Err(message) ==> exception_text(message@),
{
    match result {
        Ok(_) => Ok(()),
        Err(e) => Err(error_text(&e)),
    }
}

/// What an answer of the interpreter comes to where a failure is passed on
/// as text: the answer itself, or the text of the exception in its place.
pub fn or_text<T>(result: Result<T, PyErr>) -> (r: Result<T, String>)
    ensures
        match result {
            Ok(answer) => r == Ok::<T, String>(answer),
            Err(_) => r is Err && exception_text(r->Err_0@),
        },
{
    match result {
        Ok(answer) => Ok(answer),
        Err(e) => Err(error_text(&e)),
    }
}

impl Value {
    /// The object of the interpreter that stands for this value.
    pub fn to_object<C: DoubleCodec>(&self, py: Python<'_>, doubles: &C) -> PyObject {
        match self {
            Value::Float(d) => doubles.double_object(py, *d),
            Value::Integer(i) => int_object(py, *i),
            Value::Bool(b) => bool_object(py, *b),
        }
    }

    /// Reads `object` as a scalar of the given kind. What is read is for the
    /// interpreter to say; the value that comes back is of that kind.
    pub fn extract_scalar<C: DoubleCodec>(
        py: Python<'_>,
        kind: CPyPortType,
        object: &PyObject,
        doubles: &C,
    ) -> (r: Result<Value, PyErr>)
        ensures
            r matches Ok(value) ==> value.kind() == kind,
    {
        match kind {
            CPyPortType::Float => Value::of_double(doubles.double_bits(py, object)),
            CPyPortType::Int => Value::of_int(extract_int(py, object)),
            CPyPortType::Bool => Value::of_bool(extract_bool(py, object)),
        }
    }

    /// The value that a double read from the interpreter comes to.
    pub fn of_double(read: Result<u64, PyErr>) -> (r: Result<Value, PyErr>)
        ensures
            match read {
                Ok(d) => r == Ok::<Value, PyErr>(Value::Float(d)),
                Err(e) => r == Err::<Value, PyErr>(e),
            },
    {
        match read {
            Ok(d) => Ok(Value::Float(d)),
            Err(e) => Err(e),
        }
    }

    /// The value that an integer read from the interpreter comes to.
    pub fn of_int(read: Result<isize, PyErr>) -> (r: Result<Value, PyErr>)
        ensures
            match read {
                Ok(i) => r == Ok::<Value, PyErr>(Value::Integer(i)),
                Err(e) => r == Err::<Value, PyErr>(e),
            },
    {
        match read {
            Ok(i) => Ok(Value::Integer(i)),
            Err(e) => Err(e),
        }
    }

    /// The value that a truth value read from the interpreter comes to.
    pub fn of_bool(read: Result<bool, PyErr>) -> (r: Result<Value, PyErr>)
        ensures
            match read {
                Ok(b) => r == Ok::<Value, PyErr>(Value::Bool(b)),
                Err(e) => r == Err::<Value, PyErr>(e),
            },
    {
        match read {
            Ok(b) => Ok(Value::Bool(b)),
            Err(e) => Err(e),
        }
    }

    /// What the lookup of a key that a record must have comes to: the object
    /// found, or an `IndexError` that says which key is missing.
    pub fn required(found: Option<PyObject>, key: Key) -> (r: Result<PyObject, PyErr>)
        ensures
            match found {
                Some(object) => r == Ok::<PyObject, PyErr>(object),
                None => r is Err,
            },
    {
        match found {
            Some(object) => Ok(object),
            None => Err(index_error(key.missing())),
        }
    }

    /// What the tag read from a record comes to: the kind that it names, an
    /// `IndexError` that says `unknown_tag` for a tag that names none, and
    /// the exception itself where the tag could not be read.
    pub fn tag_kind(tag: Result<String, PyErr>) -> (r: Result<CPyPortType, PyErr>)
        ensures
            match tag {
                Ok(text) => match CPyPortType::spec_of_tag(text@) {
                    Some(kind) => r == Ok::<CPyPortType, PyErr>(kind),
                    None => r is Err,
                },
                Err(e) => r == Err::<CPyPortType, PyErr>(e),
            },
    {
        match tag {
            Ok(text) => match CPyPortType::of_tag(text.as_str()) {
                Some(kind) => Ok(kind),
                None => Err(index_error(unknown_tag_text(text.as_str()).as_str())),
            },
            Err(e) => Err(e),
        }
    }

    /// Decodes the record of one port from what was read of it: `tag` is the
    /// text read under `type`, and `found_value` what the lookup of `value`
    /// gave.
    ///
    /// The tag selects the variant, not the object under `value`: `float`
    /// gives a `Float`, `int` an `Integer` and `bool` a `Bool`, each where
    /// the object converts to a scalar of that kind. Nothing is put in the
    /// place of a record that does not decode. A record without `value`
    /// fails, whatever its tag; then a tag that could not be read fails with
    /// its own exception, and a tag that is none of the three fails.
    pub fn extract<C: DoubleCodec>(
        py: Python<'_>,
        tag: Result<String, PyErr>,
        found_value: Option<PyObject>,
        doubles: &C,
    ) -> (r: Result<Value, PyErr>)
        ensures
            found_value is None ==> r is Err,
            found_value is Some ==> match tag {
                Err(e) => r == Err::<Value, PyErr>(e),
                Ok(text) => match CPyPortType::spec_of_tag(text@) {
                    None => r is Err,
                    Some(kind) => r matches Ok(value) ==> value.kind() == kind,
                },
            },
    {
        let val = match Value::required(found_value, Key::Value) {
            Ok(val) => val,
            Err(e) => {
                return Err(e);
            },
        };
        match Value::tag_kind(tag) {
            Ok(kind) => Value::extract_scalar(py, kind, &val, doubles),
            Err(e) => Err(e),
        }
    }

    /// Makes the reads that `extract` decodes: `ob` as a `dict`, what stands
    /// under `type`, its text, and the lookup of `value`. An object that is
    /// no `dict` and a record without `type` fail here. Every answer is the
    /// interpreter's, so this function states nothing of its result.
    pub fn read_record<C: DoubleCodec>(py: Python<'_>, ob: &PyObject, doubles: &C) -> (r: Result<
        Value,
        PyErr,
    >) {
        let dict = match as_dict(py, ob) {
            Ok(dict) => dict,
            Err(e) => {
                return Err(e);
            },
        };
        let ty = match Value::required(dict_get_item(py, &dict, Key::Type.name()), Key::Type) {
            Ok(ty) => ty,
            Err(e) => {
                return Err(e);
            },
        };
        let tag = extract_string(py, &ty);
        Value::extract(py, tag, dict_get_item(py, &dict, Key::Value.name()), doubles)
    }
}

/// The key under which a value is written is not the key of the tag: a
/// write under `Key::Value` is no write under `Key::Type`.
pub proof fn lemma_value_is_not_written_under_type()
    ensures
        Key::Value.spec_name() != Key::Type.spec_name(),
{
    reveal_strlit("value");
    reveal_strlit("type");
    assert("value"@.len() == 5);
    assert("type"@.len() == 4);
}

impl<C: DoubleCodec> CPy<C> {
    /// The codec through which this component's doubles pass.
    pub closed spec fn codec(&self) -> C {
        self.doubles
    }

    /// Loads `module` and constructs an instance of its class `class_name`.
    ///
    /// The module is loaded under its own name. The constructor is evaluated
    /// with two local names: `os`, the interpreter's module of that name, and
    /// the module's name. Whether this succeeds is for the interpreter to
    /// say. A module that does not load gives `load_failure`, a constructor
    /// that raises gives `eval_failure`, and a missing `os` the text of the
    /// interpreter's exception. The component that comes back passes its
    /// doubles through `doubles`.
    ///
    /// A NUL inside a text is refused before the interpreter sees the text:
    /// inside one of the module's three texts it is a module that did not
    /// load, and inside `class_name` a failure of one of the three kinds.
    pub fn new(py: Python<'_>, module: CPyModule, class_name: &str, doubles: C) -> (r: Result<
        CPy<C>,
        String,
    >)
        ensures
            !module.free_of_nul() ==> r is Err && r->Err_0@ == load_failure(module.module_name@),
            c_string(class_name@) is None ==> r is Err,
            r matches Ok(cpy) ==> cpy.codec() == doubles,
            r matches Err(message) ==> creation_failure(message@, module.module_name@),
    {
        let loaded = load_module(
            py,
            module.content.as_str(),
            module.file_name.as_str(),
            module.module_name.as_str(),
        );
        let py_module = match load_outcome(loaded, module.module_name.as_str()) {
            Ok(m) => m,
            Err(message) => {
                return Err(message);
            },
        };
        let os = match or_text(import_module(py, "os")) {
            Ok(m) => m,
            Err(message) => {
                return Err(message);
            },
        };
        let py_locals = module_locals(py, "os", &os, module.module_name.as_str(), &py_module);
        let code = constructor_call_text(module.module_name.as_str(), class_name);
        proof {
            if c_string(class_name@) is None {
                lemma_constructor_call_nul(module.module_name@, class_name@);
            }
        }
        let py_instance = match eval_outcome(eval_with_locals(py, code.as_str(), &py_locals)) {
            Ok(instance) => instance,
            Err(message) => {
                return Err(message);
            },
        };
        Ok(CPy { _module: py_module, _locals: py_locals, instance: py_instance, doubles })
    }

    /// Calls one of the component's behaviours, with the interpreter lock
    /// held: the method that `Behaviour::name` names, without arguments. What
    /// the method returns is dropped, and what it raises comes back as text.
    pub fn behave(&self, py: Python<'_>, behaviour: Behaviour) -> (r: Result<(), String>)
        ensures
            r matches Err(message) ==> exception_text(message@),
    {
        call_outcome(call_method0(py, &self.instance, behaviour.name()))
    }

    /// Calls the component's `configure` under the interpreter lock. A
    /// failure is the text of what the component raised.
    pub fn configure(&self) -> (r: Result<(), String>)
        ensures
            r matches Err(message) ==> exception_text(message@),
    {
        let call = |py: Python| -> (r: Result<(), String>)
            ensures
                r is Err ==> exception_text(r->Err_0@),
            { self.behave(py, Behaviour::Configure) };
        Python::with_gil(call)
    }

    /// Calls the component's `run` under the interpreter lock. A failure is
    /// the text of what the component raised.
    pub fn run(&self) -> (r: Result<(), String>)
        ensures
            r matches Err(message) ==> exception_text(message@),
    {
        let call = |py: Python| -> (r: Result<(), String>)
            ensures
                r is Err ==> exception_text(r->Err_0@),
            { self.behave(py, Behaviour::Run) };
        Python::with_gil(call)
    }

    /// The component's ports as a `dict`: what stands under the attribute
    /// that `ports_attribute` names. Where the attribute is missing or is no
    /// `dict`, the text of what the interpreter raised.
    fn outports(&self, py: Python<'_>) -> (r: Result<Py<PyDict>, String>)
        ensures
            r matches Err(message) ==> exception_text(message@),
    {
        let outports = match or_text(getattr(py, &self.instance, ports_attribute_name())) {
            Ok(outports) => outports,
            Err(message) => {
                return Err(message);
            },
        };
        or_text(as_dict(py, &outports))
    }

    /// Reads the entries of a component's ports: of each item the key as a
    /// name and the record as a value, in the order of the items.
    ///
    /// Every item is read or the whole read fails: what comes back has one
    /// pair for each item, and where there is no item there is nothing to
    /// fail. A failure is the text of what the interpreter raised on the
    /// first item that could not be read.
    pub fn read_items(&self, py: Python<'_>, items: &Vec<(PyObject, PyObject)>) -> (r: Result<
        Vec<(String, Value)>,
        String,
    >)
        ensures
            r matches Ok(pairs) ==> pairs@.len() == items@.len(),
            items@.len() == 0 ==> r is Ok,
            r matches Err(message) ==> exception_text(message@),
    {
        let mut pairs: Vec<(String, Value)> = Vec::new();
        let mut i: usize = 0;
        while i < items.len()
            invariant
                i <= items@.len(),
                pairs@.len() == i,
            decreases items@.len() - i,
        {
            let name = match or_text(extract_string(py, &items[i].0)) {
                Ok(name) => name,
                Err(message) => {
                    return Err(message);
                },
            };
            let value = match or_text(Value::read_record(py, &items[i].1, &self.doubles)) {
                Ok(value) => value,
                Err(message) => {
                    return Err(message);
                },
            };
            pairs.push((name, value));
            i += 1;
        }
        Ok(pairs)
    }

    /// Reads the component's ports with the interpreter lock held.
    fn get_locked(&self, py: Python<'_>) -> (r: Result<Ports, String>)
        ensures
            r matches Ok(ports) ==> ports.wf(),
            r matches Err(message) ==> exception_text(message@),
    {
        let outports = match self.outports(py) {
            Ok(dict) => dict,
            Err(message) => {
                return Err(message);
            },
        };
        let items = dict_items(py, &outports);
        match self.read_items(py, &items) {
            Ok(pairs) => Ok(Ports::from_pairs(pairs)),
            Err(message) => Err(message),
        }
    }

    /// Reads the component's ports: every entry of `outports`, its key as
    /// the name and its record as the value.
    ///
    /// The read fails as a whole, with the text of what the interpreter
    /// raised, if `outports` is missing or is no `dict`, if a key is no
    /// string, or if a record does not decode. The interpreter lock is held
    /// from the first read to the last.
    pub fn get(&self) -> (r: Result<Ports, String>)
        ensures
            r matches Ok(ports) ==> ports.wf(),
            r matches Err(message) ==> exception_text(message@),
    {
        let read = |py: Python| -> (r: Result<Ports, String>)
            ensures
                r is Ok ==> r->Ok_0.wf(),
                r is Err ==> exception_text(r->Err_0@),
            { self.get_locked(py) };
        Python::with_gil(read)
    }

    /// Writes one value into the record that the lookup of its name found:
    /// what stands under the key `value` of the record is replaced. Where
    /// the lookup found nothing, nothing is written and nothing has failed.
    /// A failure is the text of what the interpreter raised.
    pub fn write_port(&self, py: Python<'_>, found: Option<PyObject>, value: Value) -> (r: Result<
        (),
        String,
    >)
        ensures
            found is None ==> r is Ok,
            r matches Err(message) ==> exception_text(message@),
    {
        match found {
            Some(py_port) => {
                let py_dict = match or_text(as_dict(py, &py_port)) {
                    Ok(dict) => dict,
                    Err(message) => {
                        return Err(message);
                    },
                };
                let object = value.to_object(py, &self.doubles);
                or_text(dict_set_item(py, &py_dict, Key::Value.name(), object))
            },
            None => Ok(()),
        }
    }

    /// Writes `ports` into the `dict` of a component's ports: each name is
    /// looked up and the value written into the record found, in the order
    /// of the entries, up to the first failure.
    ///
    /// Where there is no port to write, nothing is looked up and nothing
    /// fails. A failure is the text of what the interpreter raised.
    pub fn write_ports(&self, py: Python<'_>, outports: &Py<PyDict>, ports: &Ports) -> (r: Result<
        (),
        String,
    >)
        ensures
            ports.entries().len() == 0 ==> r is Ok,
            r matches Err(message) ==> exception_text(message@),
    {
        let n = ports.len();
        let mut i: usize = 0;
        while i < n
            invariant
                i <= n,
                n == ports.entries().len(),
            decreases n - i,
        {
            let found = dict_get_item(py, outports, ports.name_at(i));
            match self.write_port(py, found, ports.value_at(i)) {
                Ok(()) => {},
                Err(message) => {
                    return Err(message);
                },
            }
            i += 1;
        }
        Ok(())
    }

    /// Writes `ports` into the component with the interpreter lock held.
    fn set_locked(&self, py: Python<'_>, ports: Ports) -> (r: Result<(), String>)
        ensures
            r matches Err(message) ==> exception_text(message@),
    {
        let outports = match self.outports(py) {
            Ok(dict) => dict,
            Err(message) => {
                return Err(message);
            },
        };
        self.write_ports(py, &outports, &ports)
    }

    /// Writes `ports` into the component: for each name that `outports`
    /// holds, the `value` of its record is replaced and its `type` is left as
    /// it is. A name that `outports` does not hold is passed over, so no port
    /// is ever added; and the kind of the value written is not held against
    /// the tag of the record.
    ///
    /// The write fails, with the text of what the interpreter raised, if
    /// `outports` is missing or is no `dict`, or if the entry under one of
    /// the names is no `dict`. Names written before the failure stay written.
    pub fn set(&self, ports: Ports) -> (r: Result<(), String>)
        ensures
            r matches Err(message) ==> exception_text(message@),
    {
        let write = |py: Python| -> (r: Result<(), String>)
            ensures
                r is Err ==> exception_text(r->Err_0@),
            { self.set_locked(py, ports) };
        Python::with_gil(write)
    }
}

} // verus!
