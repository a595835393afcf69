//! The fixed catalog of host functions that a script may call.

use vstd::prelude::*;

verus! {

/// A host function that a script may call.
#[derive(Debug, Clone, Copy, PartialEq, Eq, Structural)]
pub enum CatalogFunction {
    /// Creates a namespace of a given shape.
    CreateNamespace,
    /// Deletes a namespace and all it stores.
    DeleteNamespace,
    /// Lists the names of the namespaces.
    ListNamespaces,
    /// Tells whether a namespace exists.
    NamespaceExists,
    /// Reads the value under a key.
    Get,
    /// Writes a value under a key.
    Put,
    /// Removes a key.
    Delete,
    /// Writes several values at once.
    BatchPut,
    /// Reads the values under several keys.
    BatchSelect,
    /// Reads the entries whose keys begin with a prefix.
    Scan,
    /// Adds a vector under an id.
    AddVector,
    /// Finds the vectors nearest to a vector.
    SimilaritySearch,
    /// Embeds texts as vectors.
    GenerateEmbedding,
    /// Stores a text, its embedding, and the way back from one to the other.
    StoreDocument,
    /// Finds the stored texts nearest in meaning to a text.
    SemanticSearch,
    /// Writes a value as JSON text.
    JsonEncode,
    /// Reads a value from JSON text.
    JsonDecode,
    /// Writes a value under a key as JSON text.
    InsertJson,
    /// Reads the value that was written under a key as JSON text.
    SelectJson,
    /// Remembers a text with its tags.
    MemoryStore,
    /// Recalls the remembered texts nearest in meaning to a text.
    MemoryRecall,
    /// Flushes everything to disk.
    Save,
    /// Makes a fresh unique id.
    Uuid,
    /// Tells the time in seconds since 1970.
    Timestamp,
    /// Waits for some milliseconds.
    Sleep,
}

/// The number of functions in the catalog.
pub const CATALOG_SIZE: usize = 25;

/// The name under which a script calls `function`.
pub open spec fn function_name(function: CatalogFunction) -> Seq<char> {
    match function {
        CatalogFunction::CreateNamespace => "create_namespace"@,
        CatalogFunction::DeleteNamespace => "delete_namespace"@,
        CatalogFunction::ListNamespaces => "list_namespaces"@,
        CatalogFunction::NamespaceExists => "namespace_exists"@,
        CatalogFunction::Get => "get"@,
        CatalogFunction::Put => "put"@,
        CatalogFunction::Delete => "delete"@,
        CatalogFunction::BatchPut => "batch_put"@,
        CatalogFunction::BatchSelect => "batch_select"@,
        CatalogFunction::Scan => "scan"@,
        CatalogFunction::AddVector => "add_vector"@,
        CatalogFunction::SimilaritySearch => "similarity_search"@,
        CatalogFunction::GenerateEmbedding => "generate_embedding"@,
        CatalogFunction::StoreDocument => "store_document"@,
        CatalogFunction::SemanticSearch => "semantic_search"@,
        CatalogFunction::JsonEncode => "json_encode"@,
        CatalogFunction::JsonDecode => "json_decode"@,
        CatalogFunction::InsertJson => "insert_json"@,
        CatalogFunction::SelectJson => "select_json"@,
        CatalogFunction::MemoryStore => "memory_store"@,
        CatalogFunction::MemoryRecall => "memory_recall"@,
        CatalogFunction::Save => "save"@,
        CatalogFunction::Uuid => "uuid"@,
        CatalogFunction::Timestamp => "timestamp"@,
        CatalogFunction::Sleep => "sleep"@,
    }
}

/// The function that a script calls under `name`, if there is one.
pub open spec fn function_named(name: Seq<char>) -> Option<CatalogFunction> {
    if name == "create_namespace"@ {
        Some(CatalogFunction::CreateNamespace)
    } else if name == "delete_namespace"@ {
        Some(CatalogFunction::DeleteNamespace)
    } else if name == "list_namespaces"@ {
        Some(CatalogFunction::ListNamespaces)
    } else if name == "namespace_exists"@ {
        Some(CatalogFunction::NamespaceExists)
    } else if name == "get"@ {
        Some(CatalogFunction::Get)
    } else if name == "put"@ {
        Some(CatalogFunction::Put)
    } else if name == "delete"@ {
        Some(CatalogFunction::Delete)
    } else if name == "batch_put"@ {
        Some(CatalogFunction::BatchPut)
    } else if name == "batch_select"@ {
        Some(CatalogFunction::BatchSelect)
    } else if name == "scan"@ {
        Some(CatalogFunction::Scan)
    } else if name == "add_vector"@ {
        Some(CatalogFunction::AddVector)
    } else if name == "similarity_search"@ {
        Some(CatalogFunction::SimilaritySearch)
    } else if name == "generate_embedding"@ {
        Some(CatalogFunction::GenerateEmbedding)
    } else if name == "store_document"@ {
        Some(CatalogFunction::StoreDocument)
    } else if name == "semantic_search"@ {
        Some(CatalogFunction::SemanticSearch)
    } else if name == "json_encode"@ {
        Some(CatalogFunction::JsonEncode)
    } else if name == "json_decode"@ {
        Some(CatalogFunction::JsonDecode)
    } else if name == "insert_json"@ {
        Some(CatalogFunction::InsertJson)
    } else if name == "select_json"@ {
        Some(CatalogFunction::SelectJson)
    } else if name == "memory_store"@ {
        Some(CatalogFunction::MemoryStore)
    } else if name == "memory_recall"@ {
        Some(CatalogFunction::MemoryRecall)
    } else if name == "save"@ {
        Some(CatalogFunction::Save)
    } else if name == "uuid"@ {
        Some(CatalogFunction::Uuid)
    } else if name == "timestamp"@ {
        Some(CatalogFunction::Timestamp)
    } else if name == "sleep"@ {
        Some(CatalogFunction::Sleep)
    } else {
        None
    }
}

/// Function `i` of the catalog.
pub open spec fn function_at(i: int) -> CatalogFunction {
    if i == 0 {
        CatalogFunction::CreateNamespace
    } else if i == 1 {
        CatalogFunction::DeleteNamespace
    } else if i == 2 {
        CatalogFunction::ListNamespaces
    } else if i == 3 {
        CatalogFunction::NamespaceExists
    } else if i == 4 {
        CatalogFunction::Get
    } else if i == 5 {
        CatalogFunction::Put
    } else if i == 6 {
        CatalogFunction::Delete
    } else if i == 7 {
        CatalogFunction::BatchPut
    } else if i == 8 {
        CatalogFunction::BatchSelect
    } else if i == 9 {
        CatalogFunction::Scan
    } else if i == 10 {
        CatalogFunction::AddVector
    } else if i == 11 {
        CatalogFunction::SimilaritySearch
    } else if i == 12 {
        CatalogFunction::GenerateEmbedding
    } else if i == 13 {
        CatalogFunction::StoreDocument
    } else if i == 14 {
        CatalogFunction::SemanticSearch
    } else if i == 15 {
        CatalogFunction::JsonEncode
    } else if i == 16 {
        CatalogFunction::JsonDecode
    } else if i == 17 {
        CatalogFunction::InsertJson
    } else if i == 18 {
        CatalogFunction::SelectJson
    } else if i == 19 {
        CatalogFunction::MemoryStore
    } else if i == 20 {
        CatalogFunction::MemoryRecall
    } else if i == 21 {
        CatalogFunction::Save
    } else if i == 22 {
        CatalogFunction::Uuid
    } else if i == 23 {
        CatalogFunction::Timestamp
    } else {
        CatalogFunction::Sleep
    }
}

/// Makes known what the names of the catalog are, letter by letter.
pub proof fn lemma_names_revealed()
    ensures
        "create_namespace"@ == seq!['c', 'r', 'e', 'a', 't', 'e', '_', 'n', 'a', 'm', 'e', 's', 'p', 'a', 'c', 'e'],
        "delete_namespace"@ == seq!['d', 'e', 'l', 'e', 't', 'e', '_', 'n', 'a', 'm', 'e', 's', 'p', 'a', 'c', 'e'],
        "list_namespaces"@ == seq!['l', 'i', 's', 't', '_', 'n', 'a', 'm', 'e', 's', 'p', 'a', 'c', 'e', 's'],
        "namespace_exists"@ == seq!['n', 'a', 'm', 'e', 's', 'p', 'a', 'c', 'e', '_', 'e', 'x', 'i', 's', 't', 's'],
        "get"@ == seq!['g', 'e', 't'],
        "put"@ == seq!['p', 'u', 't'],
        "delete"@ == seq!['d', 'e', 'l', 'e', 't', 'e'],
        "batch_put"@ == seq!['b', 'a', 't', 'c', 'h', '_', 'p', 'u', 't'],
        "batch_select"@ == seq!['b', 'a', 't', 'c', 'h', '_', 's', 'e', 'l', 'e', 'c', 't'],
        "scan"@ == seq!['s', 'c', 'a', 'n'],
        "add_vector"@ == seq!['a', 'd', 'd', '_', 'v', 'e', 'c', 't', 'o', 'r'],
        "similarity_search"@ == seq!['s', 'i', 'm', 'i', 'l', 'a', 'r', 'i', 't', 'y', '_', 's', 'e', 'a', 'r', 'c', 'h'],
        "generate_embedding"@ == seq!['g', 'e', 'n', 'e', 'r', 'a', 't', 'e', '_', 'e', 'm', 'b', 'e', 'd', 'd', 'i', 'n', 'g'],
        "store_document"@ == seq!['s', 't', 'o', 'r', 'e', '_', 'd', 'o', 'c', 'u', 'm', 'e', 'n', 't'],
        "semantic_search"@ == seq!['s', 'e', 'm', 'a', 'n', 't', 'i', 'c', '_', 's', 'e', 'a', 'r', 'c', 'h'],
        "json_encode"@ == seq!['j', 's', 'o', 'n', '_', 'e', 'n', 'c', 'o', 'd', 'e'],
        "json_decode"@ == seq!['j', 's', 'o', 'n', '_', 'd', 'e', 'c', 'o', 'd', 'e'],
        "insert_json"@ == seq!['i', 'n', 's', 'e', 'r', 't', '_', 'j', 's', 'o', 'n'],
        "select_json"@ == seq!['s', 'e', 'l', 'e', 'c', 't', '_', 'j', 's', 'o', 'n'],
        "memory_store"@ == seq!['m', 'e', 'm', 'o', 'r', 'y', '_', 's', 't', 'o', 'r', 'e'],
        "memory_recall"@ == seq!['m', 'e', 'm', 'o', 'r', 'y', '_', 'r', 'e', 'c', 'a', 'l', 'l'],
        "save"@ == seq!['s', 'a', 'v', 'e'],
        "uuid"@ == seq!['u', 'u', 'i', 'd'],
        "timestamp"@ == seq!['t', 'i', 'm', 'e', 's', 't', 'a', 'm', 'p'],
        "sleep"@ == seq!['s', 'l', 'e', 'e', 'p'],
{
    reveal_strlit("create_namespace");
    assert("create_namespace"@ =~= seq!['c', 'r', 'e', 'a', 't', 'e', '_', 'n', 'a', 'm', 'e', 's', 'p', 'a', 'c', 'e']);
    reveal_strlit("delete_namespace");
    assert("delete_namespace"@ =~= seq!['d', 'e', 'l', 'e', 't', 'e', '_', 'n', 'a', 'm', 'e', 's', 'p', 'a', 'c', 'e']);
    reveal_strlit("list_namespaces");
    assert("list_namespaces"@ =~= seq!['l', 'i', 's', 't', '_', 'n', 'a', 'm', 'e', 's', 'p', 'a', 'c', 'e', 's']);
    reveal_strlit("namespace_exists");
    assert("namespace_exists"@ =~= seq!['n', 'a', 'm', 'e', 's', 'p', 'a', 'c', 'e', '_', 'e', 'x', 'i', 's', 't', 's']);
    reveal_strlit("get");
    assert("get"@ =~= seq!['g', 'e', 't']);
    reveal_strlit("put");
    assert("put"@ =~= seq!['p', 'u', 't']);
    reveal_strlit("delete");
    assert("delete"@ =~= seq!['d', 'e', 'l', 'e', 't', 'e']);
    reveal_strlit("batch_put");
    assert("batch_put"@ =~= seq!['b', 'a', 't', 'c', 'h', '_', 'p', 'u', 't']);
    reveal_strlit("batch_select");
    assert("batch_select"@ =~= seq!['b', 'a', 't', 'c', 'h', '_', 's', 'e', 'l', 'e', 'c', 't']);
    reveal_strlit("scan");
    assert("scan"@ =~= seq!['s', 'c', 'a', 'n']);
    reveal_strlit("add_vector");
    assert("add_vector"@ =~= seq!['a', 'd', 'd', '_', 'v', 'e', 'c', 't', 'o', 'r']);
    reveal_strlit("similarity_search");
    assert("similarity_search"@ =~= seq!['s', 'i', 'm', 'i', 'l', 'a', 'r', 'i', 't', 'y', '_', 's', 'e', 'a', 'r', 'c', 'h']);
    reveal_strlit("generate_embedding");
    assert("generate_embedding"@ =~= seq!['g', 'e', 'n', 'e', 'r', 'a', 't', 'e', '_', 'e', 'm', 'b', 'e', 'd', 'd', 'i', 'n', 'g']);
    reveal_strlit("store_document");
    assert("store_document"@ =~= seq!['s', 't', 'o', 'r', 'e', '_', 'd', 'o', 'c', 'u', 'm', 'e', 'n', 't']);
    reveal_strlit("semantic_search");
    assert("semantic_search"@ =~= seq!['s', 'e', 'm', 'a', 'n', 't', 'i', 'c', '_', 's', 'e', 'a', 'r', 'c', 'h']);
    reveal_strlit("json_encode");
    assert("json_encode"@ =~= seq!['j', 's', 'o', 'n', '_', 'e', 'n', 'c', 'o', 'd', 'e']);
    reveal_strlit("json_decode");
    assert("json_decode"@ =~= seq!['j', 's', 'o', 'n', '_', 'd', 'e', 'c', 'o', 'd', 'e']);
    reveal_strlit("insert_json");
    assert("insert_json"@ =~= seq!['i', 'n', 's', 'e', 'r', 't', '_', 'j', 's', 'o', 'n']);
    reveal_strlit("select_json");
    assert("select_json"@ =~= seq!['s', 'e', 'l', 'e', 'c', 't', '_', 'j', 's', 'o', 'n']);
    reveal_strlit("memory_store");
    assert("memory_store"@ =~= seq!['m', 'e', 'm', 'o', 'r', 'y', '_', 's', 't', 'o', 'r', 'e']);
    reveal_strlit("memory_recall");
    assert("memory_recall"@ =~= seq!['m', 'e', 'm', 'o', 'r', 'y', '_', 'r', 'e', 'c', 'a', 'l', 'l']);
    reveal_strlit("save");
    assert("save"@ =~= seq!['s', 'a', 'v', 'e']);
    reveal_strlit("uuid");
    assert("uuid"@ =~= seq!['u', 'u', 'i', 'd']);
    reveal_strlit("timestamp");
    assert("timestamp"@ =~= seq!['t', 'i', 'm', 'e', 's', 't', 'a', 'm', 'p']);
    reveal_strlit("sleep");
    assert("sleep"@ =~= seq!['s', 'l', 'e', 'e', 'p']);
}

impl CatalogFunction {
    /// The name under which a script calls this function.
    pub fn name(&self) -> (out: &'static str)
        ensures
            out@ == function_name(*self),
    {
        match self {
            CatalogFunction::CreateNamespace => "create_namespace",
            CatalogFunction::DeleteNamespace => "delete_namespace",
            CatalogFunction::ListNamespaces => "list_namespaces",
            CatalogFunction::NamespaceExists => "namespace_exists",
            CatalogFunction::Get => "get",
            CatalogFunction::Put => "put",
            CatalogFunction::Delete => "delete",
            CatalogFunction::BatchPut => "batch_put",
            CatalogFunction::BatchSelect => "batch_select",
            CatalogFunction::Scan => "scan",
            CatalogFunction::AddVector => "add_vector",
            CatalogFunction::SimilaritySearch => "similarity_search",
            CatalogFunction::GenerateEmbedding => "generate_embedding",
            CatalogFunction::StoreDocument => "store_document",
            CatalogFunction::SemanticSearch => "semantic_search",
            CatalogFunction::JsonEncode => "json_encode",
            CatalogFunction::JsonDecode => "json_decode",
            CatalogFunction::InsertJson => "insert_json",
            CatalogFunction::SelectJson => "select_json",
            CatalogFunction::MemoryStore => "memory_store",
            CatalogFunction::MemoryRecall => "memory_recall",
            CatalogFunction::Save => "save",
            CatalogFunction::Uuid => "uuid",
            CatalogFunction::Timestamp => "timestamp",
            CatalogFunction::Sleep => "sleep",
        }
    }

    /// The function that a script calls under `name`, if there is one.
    pub fn lookup(name: &str) -> (out: Option<CatalogFunction>)
        ensures
            out == function_named(name@),
    {
        if name.eq("create_namespace") {
            Some(CatalogFunction::CreateNamespace)
        } else if name.eq("delete_namespace") {
            Some(CatalogFunction::DeleteNamespace)
        } else if name.eq("list_namespaces") {
            Some(CatalogFunction::ListNamespaces)
        } else if name.eq("namespace_exists") {
            Some(CatalogFunction::NamespaceExists)
        } else if name.eq("get") {
            Some(CatalogFunction::Get)
        } else if name.eq("put") {
            Some(CatalogFunction::Put)
        } else if name.eq("delete") {
            Some(CatalogFunction::Delete)
        } else if name.eq("batch_put") {
            Some(CatalogFunction::BatchPut)
        } else if name.eq("batch_select") {
            Some(CatalogFunction::BatchSelect)
        } else if name.eq("scan") {
            Some(CatalogFunction::Scan)
        } else if name.eq("add_vector") {
            Some(CatalogFunction::AddVector)
        } else if name.eq("similarity_search") {
            Some(CatalogFunction::SimilaritySearch)
        } else if name.eq("generate_embedding") {
            Some(CatalogFunction::GenerateEmbedding)
        } else if name.eq("store_document") {
            Some(CatalogFunction::StoreDocument)
        } else if name.eq("semantic_search") {
            Some(CatalogFunction::SemanticSearch)
        } else if name.eq("json_encode") {
            Some(CatalogFunction::JsonEncode)
        } else if name.eq("json_decode") {
            Some(CatalogFunction::JsonDecode)
        } else if name.eq("insert_json") {
            Some(CatalogFunction::InsertJson)
        } else if name.eq("select_json") {
            Some(CatalogFunction::SelectJson)
        } else if name.eq("memory_store") {
            Some(CatalogFunction::MemoryStore)
        } else if name.eq("memory_recall") {
            Some(CatalogFunction::MemoryRecall)
        } else if name.eq("save") {
            Some(CatalogFunction::Save)
        } else if name.eq("uuid") {
            Some(CatalogFunction::Uuid)
        } else if name.eq("timestamp") {
            Some(CatalogFunction::Timestamp)
        } else if name.eq("sleep") {
            Some(CatalogFunction::Sleep)
        } else {
            None
        }
    }

    /// All functions of the catalog, in its order.
    pub fn all() -> (out: Vec<CatalogFunction>)
        ensures
            out@.len() == CATALOG_SIZE,
            forall|i: int| 0 <= i < CATALOG_SIZE ==> #[trigger] out@[i] == function_at(i),
    {
        let mut out: Vec<CatalogFunction> = Vec::new();
        out.push(CatalogFunction::CreateNamespace);
        out.push(CatalogFunction::DeleteNamespace);
        out.push(CatalogFunction::ListNamespaces);
        out.push(CatalogFunction::NamespaceExists);
        out.push(CatalogFunction::Get);
        out.push(CatalogFunction::Put);
        out.push(CatalogFunction::Delete);
        out.push(CatalogFunction::BatchPut);
        out.push(CatalogFunction::BatchSelect);
        out.push(CatalogFunction::Scan);
        out.push(CatalogFunction::AddVector);
        out.push(CatalogFunction::SimilaritySearch);
        out.push(CatalogFunction::GenerateEmbedding);
        out.push(CatalogFunction::StoreDocument);
        out.push(CatalogFunction::SemanticSearch);
        out.push(CatalogFunction::JsonEncode);
        out.push(CatalogFunction::JsonDecode);
        out.push(CatalogFunction::InsertJson);
        out.push(CatalogFunction::SelectJson);
        out.push(CatalogFunction::MemoryStore);
        out.push(CatalogFunction::MemoryRecall);
        out.push(CatalogFunction::Save);
        out.push(CatalogFunction::Uuid);
        out.push(CatalogFunction::Timestamp);
        out.push(CatalogFunction::Sleep);
        out
    }
}

/// Every function is found again under its own name, so no two functions
/// share a name.
pub proof fn lemma_lookup_of_name(function: CatalogFunction)
    ensures
        function_named(function_name(function)) == Some(function),
{
    lemma_names_revealed();
    let name = function_name(function);
    match function {
        CatalogFunction::CreateNamespace => {
            assert(name.len() == 16);
            assert(function_named(name) == Some(function));
        },
        CatalogFunction::DeleteNamespace => {
            assert(name.len() == 16);
            assert(function_named(name) == Some(function));
        },
        CatalogFunction::ListNamespaces => {
            assert(name.len() == 15);
            assert(function_named(name) == Some(function));
        },
        CatalogFunction::NamespaceExists => {
            assert(name.len() == 16);
            assert(function_named(name) == Some(function));
        },
        CatalogFunction::Get => {
            assert(name.len() == 3);
            assert(function_named(name) == Some(function));
        },
        CatalogFunction::Put => {
            assert(name.len() == 3);
            assert(function_named(name) == Some(function));
        },
        CatalogFunction::Delete => {
            assert(name.len() == 6);
            assert(function_named(name) == Some(function));
        },
        CatalogFunction::BatchPut => {
            assert(name.len() == 9);
            assert(function_named(name) == Some(function));
        },
        CatalogFunction::BatchSelect => {
            assert(name.len() == 12);
            assert(function_named(name) == Some(function));
        },
        CatalogFunction::Scan => {
            assert(name.len() == 4);
            assert(function_named(name) == Some(function));
        },
        CatalogFunction::AddVector => {
            assert(name.len() == 10);
            assert(function_named(name) == Some(function));
        },
        CatalogFunction::SimilaritySearch => {
            assert(name.len() == 17);
            assert(function_named(name) == Some(function));
        },
        CatalogFunction::GenerateEmbedding => {
            assert(name.len() == 18);
            assert(function_named(name) == Some(function));
        },
        CatalogFunction::StoreDocument => {
            assert(name.len() == 14);
            assert(function_named(name) == Some(function));
        },
        CatalogFunction::SemanticSearch => {
            assert(name.len() == 15);
            assert(function_named(name) == Some(function));
        },
        CatalogFunction::JsonEncode => {
            assert(name.len() == 11);
            assert(function_named(name) == Some(function));
        },
        CatalogFunction::JsonDecode => {
            assert(name.len() == 11);
            assert(function_named(name) == Some(function));
        },
        CatalogFunction::InsertJson => {
            assert(name.len() == 11);
            assert(function_named(name) == Some(function));
        },
        CatalogFunction::SelectJson => {
            assert(name.len() == 11);
            assert(function_named(name) == Some(function));
        },
        CatalogFunction::MemoryStore => {
            assert(name.len() == 12);
            assert(function_named(name) == Some(function));
        },
        CatalogFunction::MemoryRecall => {
            assert(name.len() == 13);
            assert(function_named(name) == Some(function));
        },
        CatalogFunction::Save => {
            assert(name.len() == 4);
            assert(function_named(name) == Some(function));
        },
        CatalogFunction::Uuid => {
            assert(name.len() == 4);
            assert(function_named(name) == Some(function));
        },
        CatalogFunction::Timestamp => {
            assert(name.len() == 9);
            assert(function_named(name) == Some(function));
        },
        CatalogFunction::Sleep => {
            assert(name.len() == 5);
            assert(function_named(name) == Some(function));
        },
    }
}

} // verus!
