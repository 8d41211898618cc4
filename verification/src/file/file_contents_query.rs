use vstd::prelude::*;
use crate::error::ResponseKind;
use vstd::std_specs::convert::FromSpecImpl;
use crate::entity::FileId;
use crate::message::{QueryBody, QueryBodyView, QueryHeader, QueryHeaderView, QueryMessage,
    QueryMessageView};
use crate::query::{AnyQueryData, Query, QueryExecute, QueryMethod, ToQueryProtobuf};

verus! {

/// Get the contents of a file.
pub type FileContentsQuery = Query<FileContentsQueryData>;

#[derive(Clone, Copy, Debug)]
pub struct FileContentsQueryData {
    pub file_id: Option<FileId>,
}

impl Default for FileContentsQueryData {
    fn default() -> (data: Self)
        ensures
            data.file_id is None,
    {
        FileContentsQueryData { file_id: None }
    }
}

impl From<FileContentsQueryData> for AnyQueryData {
    fn from(data: FileContentsQueryData) -> (ret: Self) {
        AnyQueryData::FileContents(data)
    }
}

impl FromSpecImpl<FileContentsQueryData> for AnyQueryData {
    open spec fn obeys_from_spec() -> bool {
        true
    }

    open spec fn from_spec(data: FileContentsQueryData) -> Self {
        AnyQueryData::FileContents(data)
    }
}

impl FileContentsQuery {
    /// Sets the file ID for which contents are requested.
    pub fn file_id<I: Into<FileId>>(&mut self, id: I) -> (ret: &mut Self)
        ensures
            ret.data.file_id matches Some(file)
                && call_ensures(<I as Into<FileId>>::into, (id,), file),
            ret.node_account_ids == old(self).node_account_ids,
            ret.payment == old(self).payment,
            *final(self) == *final(ret),
    {
        self.data.file_id = Some(id.into());
        self
    }
}

impl ToQueryProtobuf for FileContentsQueryData {
    open spec fn query_message(&self, header: QueryHeaderView) -> QueryMessageView {
        QueryMessageView {
            query: Some(
                QueryBodyView::FileGetContents {
                    file_id: match self.file_id {
                        Some(id) => Some(id.wire()),
                        None => None,
                    },
                    header: Some(header),
                },
            ),
        }
    }

    fn to_query_protobuf(&self, header: QueryHeader) -> (msg: QueryMessage) {
        let file_id = match &self.file_id {
            Some(id) => Some(id.to_protobuf()),
            None => None,
        };
        QueryMessage {
            query: Some(QueryBody::FileGetContents { header: Some(header), file_id }),
        }
    }
}

impl QueryExecute for FileContentsQueryData {
    open spec fn called_by(&self) -> QueryMethod {
        QueryMethod::GetFileContent
    }

    fn method(&self) -> (method: QueryMethod) {
        QueryMethod::GetFileContent
    }

    open spec fn payment_required(&self) -> bool {
        true
    }

    fn is_payment_required(&self) -> (required: bool) {
        true
    }

    open spec fn answered_by(&self) -> ResponseKind {
        ResponseKind::FileGetContents
    }

    fn response_kind(&self) -> (kind: ResponseKind) {
        ResponseKind::FileGetContents
    }
}

} // verus!
