//! Document templates, one per content category. Each interpolates the
//! prompt twice: in the title line and in the opening paragraph.
use vstd::prelude::*;
use vstd::string::StringExecFns;
use crate::classify::ContentCategory;

verus! {

/// A document made of `head`, the prompt, `mid`, the prompt again and `tail`.
pub open spec fn filled(head: Seq<char>, mid: Seq<char>, tail: Seq<char>, prompt: Seq<char>) -> Seq<char> {
    head + prompt + mid + prompt + tail
}

fn fill(head: &str, mid: &str, tail: &str, prompt: &str) -> (r: String)
    ensures
        r@ == filled(head@, mid@, tail@, prompt@),
{
    let mut out = String::from_str(head);
    out.append(prompt);
    out.append(mid);
    out.append(prompt);
    out.append(tail);
    assert(out@ =~= filled(head@, mid@, tail@, prompt@));
    out
}

pub const BUSINESS_HEAD: &'static str = r#"## Business Solution: "#;

pub const BUSINESS_MID: &'static str = r#"

### Executive Summary
The business strategy for '"#;

pub const BUSINESS_TAIL: &'static str = r#"' focuses on leveraging market opportunities through innovative approaches and strategic partnerships.

### Key Components
- **Market Analysis**: Comprehensive evaluation of target demographics and competitive landscape
- **Revenue Model**: Sustainable monetization strategies with multiple income streams
- **Growth Strategy**: Scalable expansion plans with clear milestones and KPIs
- **Risk Management**: Proactive identification and mitigation of potential challenges

### Implementation Roadmap
1. **Phase 1**: Market research and validation (Weeks 1-4)
2. **Phase 2**: Product development and testing (Weeks 5-12)
3. **Phase 3**: Launch and customer acquisition (Weeks 13-20)
4. **Phase 4**: Scale and optimization (Weeks 21+)

### Expected Outcomes
- Increased market share and brand recognition
- Improved operational efficiency and cost reduction
- Enhanced customer satisfaction and retention
- Sustainable long-term growth and profitability

### Success Metrics
- Revenue growth targets: 25% quarterly increase
- Customer acquisition cost reduction: 15%
- Market penetration: 10% increase in target segments
- ROI improvement: 20% within first year"#;

/// The business document for `prompt`.
pub open spec fn business_document(prompt: Seq<char>) -> Seq<char> {
    filled(BUSINESS_HEAD@, BUSINESS_MID@, BUSINESS_TAIL@, prompt)
}

/// Renders the business document; `temperature_bits` is accepted and does not affect the text.
pub fn generate_business_text(prompt: &str, _temperature_bits: u32) -> (r: String)
    ensures
        r@ == business_document(prompt@),
{
    fill(BUSINESS_HEAD, BUSINESS_MID, BUSINESS_TAIL, prompt)
}

pub const TECHNICAL_HEAD: &'static str = r#"## Technical Implementation: "#;

pub const TECHNICAL_MID: &'static str = r#"

### System Architecture
The technical solution for '"#;

pub const TECHNICAL_TAIL: &'static str = r#"' employs modern development practices and scalable infrastructure to ensure optimal performance and maintainability.

### Technology Stack
- **Frontend**: React 18 with TypeScript for type-safe development
- **Backend**: Rust-based microservices with high concurrency support
- **Database**: PostgreSQL with Redis caching for optimal performance
- **Infrastructure**: Cloud-native deployment with Kubernetes orchestration
- **Monitoring**: Comprehensive logging and metrics collection

### Core Features
- **Scalability**: Auto-scaling infrastructure supporting 10,000+ concurrent users
- **Security**: End-to-end encryption with OAuth 2.0 authentication
- **Performance**: Sub-100ms response times with CDN optimization
- **Reliability**: 99.9% uptime SLA with automated failover

### Development Process
1. **Requirements Analysis**: Detailed specification and wireframing
2. **System Design**: Architecture planning and technology selection
3. **Implementation**: Agile development with continuous integration
4. **Testing**: Comprehensive unit, integration, and performance testing
5. **Deployment**: Automated CI/CD pipeline with blue-green deployment

### Quality Assurance
- Code coverage target: 90%+
- Automated testing pipeline
- Security vulnerability scanning
- Performance monitoring and optimization"#;

/// The technical document for `prompt`.
pub open spec fn technical_document(prompt: Seq<char>) -> Seq<char> {
    filled(TECHNICAL_HEAD@, TECHNICAL_MID@, TECHNICAL_TAIL@, prompt)
}

/// Renders the technical document; `temperature_bits` is accepted and does not affect the text.
pub fn generate_technical_text(prompt: &str, _temperature_bits: u32) -> (r: String)
    ensures
        r@ == technical_document(prompt@),
{
    fill(TECHNICAL_HEAD, TECHNICAL_MID, TECHNICAL_TAIL, prompt)
}

pub const CREATIVE_HEAD: &'static str = r#"## Creative Concept: "#;

pub const CREATIVE_MID: &'static str = r#"

### Vision Statement
The creative approach to '"#;

pub const CREATIVE_TAIL: &'static str = r#"' embraces innovation and artistic expression to deliver a unique and engaging experience that resonates with audiences.

### Creative Direction
- **Visual Identity**: Modern, minimalist design with bold typography and vibrant color palette
- **User Experience**: Intuitive navigation with delightful micro-interactions
- **Brand Voice**: Conversational, authentic, and inspiring tone
- **Content Strategy**: Storytelling approach that connects emotionally with users

### Design Elements
- **Color Scheme**: Primary blues and greens with accent oranges
- **Typography**: Clean sans-serif fonts with hierarchical scaling
- **Imagery**: High-quality photography with consistent filtering
- **Iconography**: Custom icon set with cohesive styling

### Creative Deliverables
1. **Brand Guidelines**: Complete visual identity system
2. **UI/UX Design**: Wireframes, prototypes, and final designs
3. **Content Creation**: Copy, imagery, and multimedia assets
4. **Marketing Materials**: Digital and print campaign assets

### Innovation Highlights
- Interactive storytelling elements
- Personalized user journeys
- Gamification features for engagement
- Accessibility-first design approach

### Impact Goals
- Increase brand awareness by 40%
- Improve user engagement metrics by 60%
- Enhance customer loyalty and retention
- Create viral-worthy content experiences"#;

/// The creative document for `prompt`.
pub open spec fn creative_document(prompt: Seq<char>) -> Seq<char> {
    filled(CREATIVE_HEAD@, CREATIVE_MID@, CREATIVE_TAIL@, prompt)
}

/// Renders the creative document; `temperature_bits` is accepted and does not affect the text.
pub fn generate_creative_text(prompt: &str, _temperature_bits: u32) -> (r: String)
    ensures
        r@ == creative_document(prompt@),
{
    fill(CREATIVE_HEAD, CREATIVE_MID, CREATIVE_TAIL, prompt)
}

pub const ANALYTICAL_HEAD: &'static str = r#"## Data Analysis Report: "#;

pub const ANALYTICAL_MID: &'static str = r#"

### Research Methodology
This analytical study of '"#;

pub const ANALYTICAL_TAIL: &'static str = r#"' employs quantitative and qualitative research methods to provide comprehensive insights and actionable recommendations.

### Data Sources
- **Primary Research**: Surveys, interviews, and observational studies
- **Secondary Data**: Industry reports, academic publications, and market research
- **Analytics**: Web traffic, user behavior, and conversion metrics
- **Benchmarking**: Competitive analysis and industry standards

### Key Findings
1. **Market Trends**: 35% growth in target segment over past 12 months
2. **User Behavior**: 68% preference for mobile-first experiences
3. **Performance Metrics**: Current conversion rate of 2.3% vs industry average of 1.8%
4. **Satisfaction Scores**: Net Promoter Score of 42 with room for improvement

### Statistical Analysis
- **Sample Size**: 2,847 respondents with 95% confidence interval
- **Correlation Analysis**: Strong positive correlation (r=0.78) between features A and B
- **Regression Model**: R² = 0.84 indicating high predictive accuracy
- **Significance Testing**: p-value < 0.05 confirming statistical significance

### Recommendations
1. **Immediate Actions**: Optimize mobile experience and checkout process
2. **Short-term Goals**: Implement A/B testing for key user journeys
3. **Long-term Strategy**: Develop predictive analytics capabilities
4. **Resource Allocation**: Increase investment in data infrastructure by 25%

### Expected Impact
- 15% improvement in conversion rates
- 30% reduction in customer acquisition costs
- 25% increase in customer lifetime value
- Enhanced decision-making through data-driven insights"#;

/// The analytical document for `prompt`.
pub open spec fn analytical_document(prompt: Seq<char>) -> Seq<char> {
    filled(ANALYTICAL_HEAD@, ANALYTICAL_MID@, ANALYTICAL_TAIL@, prompt)
}

/// Renders the analytical document; `temperature_bits` is accepted and does not affect the text.
pub fn generate_analytical_text(prompt: &str, _temperature_bits: u32) -> (r: String)
    ensures
        r@ == analytical_document(prompt@),
{
    fill(ANALYTICAL_HEAD, ANALYTICAL_MID, ANALYTICAL_TAIL, prompt)
}

pub const GENERAL_HEAD: &'static str = r#"## Comprehensive Overview: "#;

pub const GENERAL_MID: &'static str = r#"

### Introduction
This document provides a detailed examination of '"#;

pub const GENERAL_TAIL: &'static str = r#"' with practical insights and strategic recommendations for successful implementation.

### Background Analysis
The current landscape presents both opportunities and challenges that require careful consideration and strategic planning. Our approach focuses on sustainable solutions that deliver measurable value.

### Core Components
- **Foundation**: Establishing solid groundwork with clear objectives
- **Implementation**: Systematic execution with defined milestones
- **Optimization**: Continuous improvement based on performance metrics
- **Scalability**: Future-ready architecture supporting growth

### Strategic Approach
1. **Assessment Phase**: Comprehensive evaluation of current state
2. **Planning Phase**: Detailed roadmap with resource allocation
3. **Execution Phase**: Coordinated implementation with quality controls
4. **Review Phase**: Performance analysis and optimization opportunities

### Key Considerations
- **Resource Requirements**: Budget, timeline, and personnel needs
- **Risk Factors**: Potential challenges and mitigation strategies
- **Success Metrics**: Quantifiable goals and measurement criteria
- **Stakeholder Impact**: Benefits and considerations for all parties

### Implementation Timeline
- **Week 1-2**: Initial setup and team preparation
- **Week 3-6**: Core development and testing
- **Week 7-8**: Launch preparation and final adjustments
- **Week 9+**: Monitoring, optimization, and scaling

### Expected Outcomes
- Improved efficiency and effectiveness
- Enhanced user satisfaction and engagement
- Measurable return on investment
- Sustainable long-term value creation"#;

/// The general document for `prompt`.
pub open spec fn general_document(prompt: Seq<char>) -> Seq<char> {
    filled(GENERAL_HEAD@, GENERAL_MID@, GENERAL_TAIL@, prompt)
}

/// Renders the general document; `temperature_bits` is accepted and does not affect the text.
pub fn generate_general_text(prompt: &str, _temperature_bits: u32) -> (r: String)
    ensures
        r@ == general_document(prompt@),
{
    fill(GENERAL_HEAD, GENERAL_MID, GENERAL_TAIL, prompt)
}

/// The document that `category` selects for `prompt`.
pub open spec fn category_document(category: ContentCategory, prompt: Seq<char>) -> Seq<char> {
    match category {
        ContentCategory::Business => business_document(prompt),
        ContentCategory::Technical => technical_document(prompt),
        ContentCategory::Creative => creative_document(prompt),
        ContentCategory::Analytical => analytical_document(prompt),
        ContentCategory::General => general_document(prompt),
    }
}

/// Renders the document of `category` for `prompt`.
pub fn render_category(category: ContentCategory, prompt: &str, temperature_bits: u32) -> (r: String)
    ensures
        r@ == category_document(category, prompt@),
{
    match category {
        ContentCategory::Business => generate_business_text(prompt, temperature_bits),
        ContentCategory::Technical => generate_technical_text(prompt, temperature_bits),
        ContentCategory::Creative => generate_creative_text(prompt, temperature_bits),
        ContentCategory::Analytical => generate_analytical_text(prompt, temperature_bits),
        ContentCategory::General => generate_general_text(prompt, temperature_bits),
    }
}

} // verus!
